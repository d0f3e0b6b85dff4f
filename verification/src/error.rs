//! Failures of the collection path.
use crate::text::joined;
use vstd::prelude::*;

verus! {

/// What can go wrong while a module is resolved, run and its results relayed.
#[derive(Debug, Clone, PartialEq, Eq)]
pub enum Error {
    /// A filesystem, process or transport operation failed.
    Io(String),
    /// A structured document was malformed.
    Serialization(String),
    /// A module name broke the naming rules; holds the name.
    InvalidModuleName(String),
    /// No base directory holds the module; holds the name.
    ModuleNotFound(String),
    /// A module timed out, exited with a failure status or wrote output that
    /// is no structured document.
    ModuleExecution(String),
    /// The server could not be reached or did not answer with success.
    Relay(String),
}

/// The mathematical value of an `Error`.
pub enum ErrorView {
    Io(Seq<char>),
    Serialization(Seq<char>),
    InvalidModuleName(Seq<char>),
    ModuleNotFound(Seq<char>),
    ModuleExecution(Seq<char>),
    Relay(Seq<char>),
}

impl ErrorView {
    /// The line that describes the failure to a reader.
    pub open spec fn text(self) -> Seq<char> {
        match self {
            ErrorView::Io(m) => "IO error: "@ + m,
            ErrorView::Serialization(m) => "Serialization error: "@ + m,
            ErrorView::InvalidModuleName(m) => "Invalid module name: "@ + m,
            ErrorView::ModuleNotFound(m) => "Module not found: "@ + m,
            ErrorView::ModuleExecution(m) => "Module execution error: "@ + m,
            ErrorView::Relay(m) => "Relay error: "@ + m,
        }
    }
}

impl View for Error {
    type V = ErrorView;

    open spec fn view(&self) -> ErrorView {
        match self {
            Error::Io(m) => ErrorView::Io(m@),
            Error::Serialization(m) => ErrorView::Serialization(m@),
            Error::InvalidModuleName(m) => ErrorView::InvalidModuleName(m@),
            Error::ModuleNotFound(m) => ErrorView::ModuleNotFound(m@),
            Error::ModuleExecution(m) => ErrorView::ModuleExecution(m@),
            Error::Relay(m) => ErrorView::Relay(m@),
        }
    }
}

impl Error {
    /// The line that describes the failure to a reader.
    pub fn message(&self) -> (r: String)
        ensures
            r@ == self@.text(),
    {
        match self {
            Error::Io(m) => joined("IO error: ", m.as_str()),
            Error::Serialization(m) => joined("Serialization error: ", m.as_str()),
            Error::InvalidModuleName(m) => joined("Invalid module name: ", m.as_str()),
            Error::ModuleNotFound(m) => joined("Module not found: ", m.as_str()),
            Error::ModuleExecution(m) => joined("Module execution error: ", m.as_str()),
            Error::Relay(m) => joined("Relay error: ", m.as_str()),
        }
    }
}

/// The result of an operation of the collection path.
pub type Result<T> = std::result::Result<T, Error>;

} // verus!
