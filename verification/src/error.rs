//! The errors of the file system and of its daemon.
use vstd::prelude::*;

use crate::cbmtype::{CbmError, CbmErrorView};
use crate::errno::{
    EACCES, ECANCELED, EINVAL, EIO, EISDIR, ENOENT, ENOTDIR, EROFS, ETIMEDOUT,
};
use crate::time::Duration;

verus! {

/// What can go wrong.
#[allow(inconsistent_fields)]
#[derive(Debug, PartialEq)]
pub enum Error {
    /// An error from the drives, the bus or the USB adapter
    Rs1541 { message: String, error: CbmError },
    /// An error of input or output, mostly pertaining to command line handling, the
    /// server's socket, and file handling
    Io { message: String, error: String },
    /// A serialization or deserialization error
    Serde { message: String, error: String },
    /// An error of the file system itself
    Fs1541 { message: String, error: Fs1541Error },
}

/// The errors of the file system itself.
#[derive(Debug, PartialEq)]
pub enum Fs1541Error {
    /// Failed operation
    Operation(String),
    /// Configuration error
    Configuration(String),
    /// Validation error
    Validation(String),
    /// A request has been aged out
    AgedOut(String),
    /// Internal error, which suggests a bug
    Internal(String),
    /// Timeout error
    Timeout(String, Duration),
    /// Operation cancelled
    Cancelled(String),
    /// Read only error
    ReadOnly(String),
    /// Write only error
    WriteOnly(String),
    /// Read and write not supported
    ReadOrWriteOnly(String),
    /// General file access error
    FileAccess(String),
    /// Is a directory
    IsDir(String),
    /// Isn't a directory
    IsNotDir(String),
    /// No entry (e.g. file or directory)
    NoEntry(String),
}

/// What can go wrong, with its texts as sequences of characters.
#[allow(inconsistent_fields)]
#[verifier::ext_equal]
pub enum ErrorView {
    Rs1541 { message: Seq<char>, error: CbmErrorView },
    Io { message: Seq<char>, error: Seq<char> },
    Serde { message: Seq<char>, error: Seq<char> },
    Fs1541 { message: Seq<char>, error: Fs1541ErrorView },
}

/// The errors of the file system itself, with their texts as sequences of characters.
#[verifier::ext_equal]
pub enum Fs1541ErrorView {
    Operation(Seq<char>),
    Configuration(Seq<char>),
    Validation(Seq<char>),
    AgedOut(Seq<char>),
    Internal(Seq<char>),
    Timeout(Seq<char>, Duration),
    Cancelled(Seq<char>),
    ReadOnly(Seq<char>),
    WriteOnly(Seq<char>),
    ReadOrWriteOnly(Seq<char>),
    FileAccess(Seq<char>),
    IsDir(Seq<char>),
    IsNotDir(Seq<char>),
    NoEntry(Seq<char>),
}

impl View for Fs1541Error {
    type V = Fs1541ErrorView;

    open spec fn view(&self) -> Fs1541ErrorView {
        match *self {
            Fs1541Error::Operation(s) => Fs1541ErrorView::Operation(s@),
            Fs1541Error::Configuration(s) => Fs1541ErrorView::Configuration(s@),
            Fs1541Error::Validation(s) => Fs1541ErrorView::Validation(s@),
            Fs1541Error::AgedOut(s) => Fs1541ErrorView::AgedOut(s@),
            Fs1541Error::Internal(s) => Fs1541ErrorView::Internal(s@),
            Fs1541Error::Timeout(s, d) => Fs1541ErrorView::Timeout(s@, d),
            Fs1541Error::Cancelled(s) => Fs1541ErrorView::Cancelled(s@),
            Fs1541Error::ReadOnly(s) => Fs1541ErrorView::ReadOnly(s@),
            Fs1541Error::WriteOnly(s) => Fs1541ErrorView::WriteOnly(s@),
            Fs1541Error::ReadOrWriteOnly(s) => Fs1541ErrorView::ReadOrWriteOnly(s@),
            Fs1541Error::FileAccess(s) => Fs1541ErrorView::FileAccess(s@),
            Fs1541Error::IsDir(s) => Fs1541ErrorView::IsDir(s@),
            Fs1541Error::IsNotDir(s) => Fs1541ErrorView::IsNotDir(s@),
            Fs1541Error::NoEntry(s) => Fs1541ErrorView::NoEntry(s@),
        }
    }
}

impl View for Error {
    type V = ErrorView;

    open spec fn view(&self) -> ErrorView {
        match *self {
            Error::Rs1541 { message, error } => ErrorView::Rs1541 {
                message: message@,
                error: error@,
            },
            Error::Io { message, error } => ErrorView::Io { message: message@, error: error@ },
            Error::Serde { message, error } => ErrorView::Serde {
                message: message@,
                error: error@,
            },
            Error::Fs1541 { message, error } => ErrorView::Fs1541 {
                message: message@,
                error: error@,
            },
        }
    }
}

impl Fs1541ErrorView {
    /// A span of time in the error is in order.
    pub open spec fn wf(self) -> bool {
        self matches Fs1541ErrorView::Timeout(_, d) ==> d.wf()
    }

    /// The text of the error.
    pub open spec fn text(self) -> Seq<char> {
        match self {
            Fs1541ErrorView::Operation(s) => "Operation error: "@ + s,
            Fs1541ErrorView::Configuration(s) => "Configuration error: "@ + s,
            Fs1541ErrorView::Validation(s) => "Validation error: "@ + s,
            Fs1541ErrorView::AgedOut(s) => "Aged out error: "@ + s,
            Fs1541ErrorView::Internal(s) => "Internal error: "@ + s,
            Fs1541ErrorView::Timeout(s, d) => "Timeout error: "@ + s + " Timer duration: "@
                + d.text(),
            Fs1541ErrorView::Cancelled(s) => "Operation cancelled: "@ + s,
            Fs1541ErrorView::ReadOnly(s) => "File "@ + s + " is read only"@,
            Fs1541ErrorView::WriteOnly(s) => "Write "@ + s + " is read only"@,
            Fs1541ErrorView::ReadOrWriteOnly(s) => "Read _or_ write only supported "@ + s,
            Fs1541ErrorView::FileAccess(s) => "General file access error: "@ + s,
            Fs1541ErrorView::IsDir(s) => "Is a directory: "@ + s,
            Fs1541ErrorView::IsNotDir(s) => "File is not a directory: "@ + s,
            Fs1541ErrorView::NoEntry(s) => "No (filesystem) entry: "@ + s,
        }
    }

    /// The error number that the kernel is answered with.
    pub open spec fn errno(self) -> i32 {
        match self {
            Fs1541ErrorView::Operation(_) => EIO,
            Fs1541ErrorView::Configuration(_) => EINVAL,
            Fs1541ErrorView::Validation(_) => EINVAL,
            Fs1541ErrorView::AgedOut(_) => ETIMEDOUT,
            Fs1541ErrorView::Internal(_) => EIO,
            Fs1541ErrorView::Timeout(_, _) => ETIMEDOUT,
            Fs1541ErrorView::Cancelled(_) => ECANCELED,
            Fs1541ErrorView::ReadOnly(_) => EROFS,
            Fs1541ErrorView::WriteOnly(_) => EACCES,
            Fs1541ErrorView::ReadOrWriteOnly(_) => EINVAL,
            Fs1541ErrorView::FileAccess(_) => EACCES,
            Fs1541ErrorView::IsDir(_) => EISDIR,
            Fs1541ErrorView::IsNotDir(_) => ENOTDIR,
            Fs1541ErrorView::NoEntry(_) => ENOENT,
        }
    }
}

impl ErrorView {
    /// A span of time in the error is in order.
    pub open spec fn wf(self) -> bool {
        self matches ErrorView::Fs1541 { error, .. } ==> error.wf()
    }

    /// The text of the error.
    pub open spec fn text(self) -> Seq<char> {
        match self {
            ErrorView::Rs1541 { message, error } => message + " | rs1541 error: "@ + error.text(),
            ErrorView::Io { message, error } => message + " | IO error: "@ + error,
            ErrorView::Serde { message, error } => message + " | Serde error: "@ + error,
            ErrorView::Fs1541 { message, error } => message + " | fs1541 error: "@ + error.text(),
        }
    }

    /// The error number that the kernel is answered with.
    pub open spec fn errno(self) -> i32 {
        match self {
            ErrorView::Fs1541 { error, .. } => error.errno(),
            _ => EIO,
        }
    }
}

fn two(a: &str, b: &str) -> (s: String)
    ensures
        s@ == a@ + b@,
{
    let mut s = a.to_owned();
    s.append(b);
    s
}

fn three(a: &str, b: &str, c: &str) -> (s: String)
    ensures
        s@ == a@ + b@ + c@,
{
    let mut s = a.to_owned();
    s.append(b);
    s.append(c);
    s
}

impl Fs1541Error {
    /// The error number that the kernel is answered with.
    pub fn to_fuse_reply_error(&self) -> (r: i32)
        ensures
            r == self@.errno(),
    {
        match self {
            Fs1541Error::Operation(_) => EIO,
            Fs1541Error::Configuration(_) => EINVAL,
            Fs1541Error::Validation(_) => EINVAL,
            Fs1541Error::AgedOut(_) => ETIMEDOUT,
            Fs1541Error::Internal(_) => EIO,
            Fs1541Error::Timeout(_, _) => ETIMEDOUT,
            Fs1541Error::Cancelled(_) => ECANCELED,
            Fs1541Error::ReadOnly(_) => EROFS,
            Fs1541Error::WriteOnly(_) => EACCES,
            Fs1541Error::ReadOrWriteOnly(_) => EINVAL,
            Fs1541Error::FileAccess(_) => EACCES,
            Fs1541Error::IsDir(_) => EISDIR,
            Fs1541Error::IsNotDir(_) => ENOTDIR,
            Fs1541Error::NoEntry(_) => ENOENT,
        }
    }

    /// The text of the error.
    pub fn to_string(&self) -> (s: String)
        requires
            self@.wf(),
        ensures
            s@ == self@.text(),
    {
        match self {
            Fs1541Error::Operation(s) => two("Operation error: ", s.as_str()),
            Fs1541Error::Configuration(s) => two("Configuration error: ", s.as_str()),
            Fs1541Error::Validation(s) => two("Validation error: ", s.as_str()),
            Fs1541Error::AgedOut(s) => two("Aged out error: ", s.as_str()),
            Fs1541Error::Internal(s) => two("Internal error: ", s.as_str()),
            Fs1541Error::Timeout(s, d) => {
                let mut t = three("Timeout error: ", s.as_str(), " Timer duration: ");
                t.append(d.to_string().as_str());
                t
            },
            Fs1541Error::Cancelled(s) => two("Operation cancelled: ", s.as_str()),
            Fs1541Error::ReadOnly(s) => three("File ", s.as_str(), " is read only"),
            Fs1541Error::WriteOnly(s) => three("Write ", s.as_str(), " is read only"),
            Fs1541Error::ReadOrWriteOnly(s) => two("Read _or_ write only supported ", s.as_str()),
            Fs1541Error::FileAccess(s) => two("General file access error: ", s.as_str()),
            Fs1541Error::IsDir(s) => two("Is a directory: ", s.as_str()),
            Fs1541Error::IsNotDir(s) => two("File is not a directory: ", s.as_str()),
            Fs1541Error::NoEntry(s) => two("No (filesystem) entry: ", s.as_str()),
        }
    }
}

impl Error {
    /// The error number that the kernel is answered with.
    pub fn to_fuse_reply_error(&self) -> (r: i32)
        ensures
            r == self@.errno(),
    {
        match self {
            Error::Fs1541 { error, .. } => error.to_fuse_reply_error(),
            _ => EIO,
        }
    }

    /// The text of the error.
    pub fn to_string(&self) -> (s: String)
        requires
            self@.wf(),
        ensures
            s@ == self@.text(),
    {
        match self {
            Error::Rs1541 { message, error } => three(
                message.as_str(),
                " | rs1541 error: ",
                error.to_string().as_str(),
            ),
            Error::Io { message, error } => three(
                message.as_str(),
                " | IO error: ",
                error.as_str(),
            ),
            Error::Serde { message, error } => three(
                message.as_str(),
                " | Serde error: ",
                error.as_str(),
            ),
            Error::Fs1541 { message, error } => three(
                message.as_str(),
                " | fs1541 error: ",
                error.to_string().as_str(),
            ),
        }
    }
}

/// Every error is answered with an error number of its own: never with 0, which would
/// stand for success.
pub proof fn law_errors_are_answered(e: ErrorView, c: CbmErrorView)
    ensures
        e.errno() > 0,
        !(c is FuseError) ==> c.errno() > 0,
{
}

} // verus!
