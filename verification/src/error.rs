//! Errors that the contract answers with.

use vstd::prelude::*;

verus! {

/// The records that can be missing or unreadable.
#[derive(Clone, Copy, PartialEq, Eq, Structural, Debug)]
pub enum Record {
    Config,
    RewardPool,
}

/// Why a request was refused.
#[derive(Debug)]
pub enum StdError {
    /// A rule of the contract was broken; the message says which.
    GenericErr { msg: String },
    /// A record is not there.
    NotFound { kind: Record },
    /// A record is there, but its bytes are not those of such a record. The message is the
    /// decoder's.
    Unreadable { kind: Record, msg: String },
    /// A message handed on by a token contract is not one of this contract's messages.
    ParseErr { msg: String },
    /// A token contract did not accept the viewing key.
    Unauthorized,
}

/// What a [`StdError`] says. The decoder's text on an unreadable record is left out: it is not
/// the contract's.
pub enum StdErrorView {
    GenericErr { msg: Seq<char> },
    NotFound { kind: Record },
    Unreadable { kind: Record },
    ParseErr { msg: Seq<char> },
    Unauthorized,
}

impl View for StdError {
    type V = StdErrorView;

    open spec fn view(&self) -> StdErrorView {
        match *self {
            StdError::GenericErr { msg } => StdErrorView::GenericErr { msg: msg@ },
            StdError::NotFound { kind } => StdErrorView::NotFound { kind },
            StdError::Unreadable { kind, .. } => StdErrorView::Unreadable { kind },
            StdError::ParseErr { msg } => StdErrorView::ParseErr { msg: msg@ },
            StdError::Unauthorized => StdErrorView::Unauthorized,
        }
    }
}

impl StdError {
    /// An error with a message of the contract's own.
    pub fn generic_err(msg: &str) -> (error: StdError)
        ensures
            error@ == generic(msg@),
    {
        StdError::GenericErr { msg: msg.to_owned() }
    }
}

/// The view of an error with the given message.
pub open spec fn generic(msg: Seq<char>) -> StdErrorView {
    StdErrorView::GenericErr { msg }
}

} // verus!
