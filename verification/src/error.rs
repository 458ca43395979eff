//! The failures this crate reports.

use vstd::prelude::*;

verus! {

/// Why an operation on foreign memory was not carried out.
#[derive(Clone, Copy, Debug, PartialEq, Eq, Structural)]
pub enum Error {
    /// A foreign address resolved to null.
    NullHandle,
    /// A computed location disagrees with the location that was declared for it.
    AbiMismatch,
    /// The protection of the page that holds a table slot could not be changed,
    /// or, when attaching, a slot could not be hooked at all.
    HookInstallFailed,
    /// The slot already holds a replacement that has not been restored.
    AlreadyInstalled,
}

impl Error {
    /// A short description of the failure, for reports.
    pub fn message(&self) -> (text: &'static str)
        ensures
            text@ == match *self {
                Error::NullHandle => "null handle"@,
                Error::AbiMismatch => "layout mismatch"@,
                Error::HookInstallFailed => "hook install failed"@,
                Error::AlreadyInstalled => "already installed"@,
            },
    {
        match self {
            Error::NullHandle => "null handle",
            Error::AbiMismatch => "layout mismatch",
            Error::HookInstallFailed => "hook install failed",
            Error::AlreadyInstalled => "already installed",
        }
    }
}

} // verus!
