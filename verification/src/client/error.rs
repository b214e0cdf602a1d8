//! The errors of the client.
use vstd::prelude::*;

use crate::cbmtype::{CbmError, CbmErrorView};
use crate::number;
use crate::number::push_decimal;

verus! {

/// What can go wrong in the client.
#[derive(Debug, PartialEq)]
pub enum ClientError {
    InternalError(String),
    ConfigurationError(String),
    ValidationError(String),
    DaemonStartup(String),
    /// After so many seconds
    Timeout(u64),
    IPC(String),
    Protocol(String),
}

/// What can go wrong in the client, with its texts as sequences of characters.
#[verifier::ext_equal]
pub enum ClientErrorView {
    InternalError(Seq<char>),
    ConfigurationError(Seq<char>),
    ValidationError(Seq<char>),
    DaemonStartup(Seq<char>),
    Timeout(u64),
    IPC(Seq<char>),
    Protocol(Seq<char>),
}

impl View for ClientError {
    type V = ClientErrorView;

    open spec fn view(&self) -> ClientErrorView {
        match *self {
            ClientError::InternalError(s) => ClientErrorView::InternalError(s@),
            ClientError::ConfigurationError(s) => ClientErrorView::ConfigurationError(s@),
            ClientError::ValidationError(s) => ClientErrorView::ValidationError(s@),
            ClientError::DaemonStartup(s) => ClientErrorView::DaemonStartup(s@),
            ClientError::Timeout(n) => ClientErrorView::Timeout(n),
            ClientError::IPC(s) => ClientErrorView::IPC(s@),
            ClientError::Protocol(s) => ClientErrorView::Protocol(s@),
        }
    }
}

impl ClientErrorView {
    /// The text of the error.
    pub open spec fn text(self) -> Seq<char> {
        match self {
            ClientErrorView::ConfigurationError(s) => "Configuration error: "@ + s,
            ClientErrorView::ValidationError(s) => "Validation error: "@ + s,
            ClientErrorView::InternalError(s) => "Internal error: "@ + s,
            ClientErrorView::DaemonStartup(s) => "Daemon failed to start: "@ + s,
            ClientErrorView::Timeout(n) => "Operation timed out after "@ + number::decimal(
                n as nat,
            ) + " seconds"@,
            ClientErrorView::IPC(s) => "IPC error: "@ + s,
            ClientErrorView::Protocol(s) => "Protocol error: "@ + s,
        }
    }
}

/// The client's error for one of the drives. Only errors of validation are expected.
pub open spec fn client_error_for(e: CbmErrorView) -> ClientErrorView {
    match e {
        CbmErrorView::ValidationError(s) => ClientErrorView::ValidationError(s),
        other => ClientErrorView::InternalError(
            "Unepected error from CBM library: "@ + other.text(),
        ),
    }
}

fn two(a: &str, b: &str) -> (s: String)
    ensures
        s@ == a@ + b@,
{
    let mut s = a.to_owned();
    s.append(b);
    s
}

impl ClientError {
    /// The client's error for one of the drives.
    pub fn from_cbm(error: CbmError) -> (r: Self)
        ensures
            r@ == client_error_for(error@),
    {
        match error {
            CbmError::ValidationError(s) => ClientError::ValidationError(s),
            other => ClientError::InternalError(
                two("Unepected error from CBM library: ", other.to_string().as_str()),
            ),
        }
    }

    /// The text of the error.
    pub fn to_string(&self) -> (s: String)
        ensures
            s@ == self@.text(),
    {
        match self {
            ClientError::ConfigurationError(s) => two("Configuration error: ", s.as_str()),
            ClientError::ValidationError(s) => two("Validation error: ", s.as_str()),
            ClientError::InternalError(s) => two("Internal error: ", s.as_str()),
            ClientError::DaemonStartup(s) => two("Daemon failed to start: ", s.as_str()),
            ClientError::Timeout(n) => {
                let mut s = "Operation timed out after ".to_owned();
                push_decimal(&mut s, *n);
                s.append(" seconds");
                s
            },
            ClientError::IPC(s) => two("IPC error: ", s.as_str()),
            ClientError::Protocol(s) => two("Protocol error: ", s.as_str()),
        }
    }
}

} // verus!
