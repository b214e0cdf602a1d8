//! The errors of the daemon.
use vstd::prelude::*;
use vstd::std_specs::convert::FromSpecImpl;

use crate::cbmtype::{CbmError, CbmErrorView};
use crate::ipc::{Response, ResponseView};

verus! {

/// What can go wrong in the daemon.
#[derive(Debug, PartialEq)]
pub enum DaemonError {
    CbmError(CbmError),
    ConfigurationError(String),
    ValidationError(String),
    /// The text of an error of input or output
    MountError(String),
    InternalError(String),
}

/// What can go wrong in the daemon, with its texts as sequences of characters.
#[verifier::ext_equal]
pub enum DaemonErrorView {
    CbmError(CbmErrorView),
    ConfigurationError(Seq<char>),
    ValidationError(Seq<char>),
    MountError(Seq<char>),
    InternalError(Seq<char>),
}

impl View for DaemonError {
    type V = DaemonErrorView;

    open spec fn view(&self) -> DaemonErrorView {
        match *self {
            DaemonError::CbmError(e) => DaemonErrorView::CbmError(e@),
            DaemonError::ConfigurationError(s) => DaemonErrorView::ConfigurationError(s@),
            DaemonError::ValidationError(s) => DaemonErrorView::ValidationError(s@),
            DaemonError::MountError(s) => DaemonErrorView::MountError(s@),
            DaemonError::InternalError(s) => DaemonErrorView::InternalError(s@),
        }
    }
}

impl FromSpecImpl<CbmError> for DaemonError {
    open spec fn obeys_from_spec() -> bool {
        true
    }

    open spec fn from_spec(error: CbmError) -> Self {
        match error {
            CbmError::ValidationError(s) => DaemonError::ValidationError(s),
            other => DaemonError::CbmError(other),
        }
    }
}

impl From<CbmError> for DaemonError {
    fn from(error: CbmError) -> (r: Self) {
        match error {
            CbmError::ValidationError(s) => DaemonError::ValidationError(s),
            other => DaemonError::CbmError(other),
        }
    }
}

impl DaemonErrorView {
    /// The text of the error.
    pub open spec fn text(self) -> Seq<char> {
        match self {
            DaemonErrorView::CbmError(e) => "CBM error: "@ + e.text(),
            DaemonErrorView::ConfigurationError(s) => "Configuration error: "@ + s,
            DaemonErrorView::ValidationError(s) => "Validation error: "@ + s,
            DaemonErrorView::MountError(s) => "Mount error: "@ + s,
            DaemonErrorView::InternalError(s) => "Internal error: "@ + s,
        }
    }
}

fn two(a: &str, b: &str) -> (s: String)
    ensures
        s@ == a@ + b@,
{
    let mut s = a.to_owned();
    s.append(b);
    s
}

impl DaemonError {
    /// An error of input or output, by its text.
    pub fn from_io(error: String) -> (r: Self)
        ensures
            r == DaemonError::MountError(error),
    {
        DaemonError::MountError(error)
    }

    /// The text of the error.
    pub fn to_string(&self) -> (s: String)
        ensures
            s@ == self@.text(),
    {
        match self {
            DaemonError::CbmError(e) => two("CBM error: ", e.to_string().as_str()),
            DaemonError::ConfigurationError(s) => two("Configuration error: ", s.as_str()),
            DaemonError::ValidationError(s) => two("Validation error: ", s.as_str()),
            DaemonError::MountError(s) => two("Mount error: ", s.as_str()),
            DaemonError::InternalError(s) => two("Internal error: ", s.as_str()),
        }
    }

    /// What a client is answered with.
    pub fn to_response(&self) -> (r: Response)
        ensures
            r@ == ResponseView::Error(self@.text()),
    {
        Response::Error(self.to_string())
    }
}

} // verus!
