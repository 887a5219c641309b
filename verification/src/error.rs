//! What an operation of this crate reports when it refuses its input.

use crate::c_string::{NulError, NulErrorView};
use vstd::prelude::*;
use vstd::string::StringExecFns;

verus! {

/// The ways in which an operation refuses its input.
#[derive(Debug, Clone, Copy, PartialEq, Eq, Structural)]
pub enum ErrorKind {
    /// An argument holds a value that cannot be handed to the foreign
    /// library.
    InvalidArgumentValue,
}

/// A refusal: what went wrong, in words and as a kind, and the failed
/// conversion behind it where there is one.
#[derive(Debug)]
pub struct XlibError {
    message: String,
    kind: ErrorKind,
    side: Option<NulError>,
}

/// What an [`XlibError`] holds.
pub struct XlibErrorView {
    /// What went wrong, in words.
    pub message: Seq<char>,
    /// What went wrong, as a kind.
    pub kind: ErrorKind,
    /// The failed conversion behind the error, if there is one.
    pub side: Option<NulErrorView>,
}

impl View for XlibError {
    type V = XlibErrorView;

    closed spec fn view(&self) -> XlibErrorView {
        XlibErrorView {
            message: self.message@,
            kind: self.kind,
            side: match self.side {
                Some(side) => Some(side@),
                None => None,
            },
        }
    }
}

impl XlibError {
    /// The error for a display name that could not be marshalled.
    pub(crate) fn invalid_display_name(side: NulError) -> (error: XlibError)
        ensures
            error@.message == "Failed to convert display_name to CString."@,
            error@.kind == ErrorKind::InvalidArgumentValue,
            error@.side == Some(side@),
    {
        XlibError {
            message: String::from_str("Failed to convert display_name to CString."),
            kind: ErrorKind::InvalidArgumentValue,
            side: Some(side),
        }
    }

    /// What went wrong, in words.
    pub fn message(&self) -> (message: &str)
        ensures
            message@ == self@.message,
    {
        self.message.as_str()
    }

    /// What went wrong, as a kind.
    pub fn kind(&self) -> (kind: ErrorKind)
        ensures
            kind == self@.kind,
    {
        self.kind
    }

    /// The failed conversion that led to this error, if one did.
    pub fn side(&self) -> (side: Option<&NulError>)
        ensures
            side is Some <==> self@.side is Some,
            side matches Some(inner) ==> Some(inner@) == self@.side,
    {
        self.side.as_ref()
    }

    /// The text under which this error is shown. It is the same for every
    /// error.
    pub fn to_string(&self) -> (text: String)
        ensures
            text@ == "XlibError"@,
    {
        String::from_str("XlibError")
    }
}

} // verus!
