//! What can go wrong in a switch.

use vstd::prelude::*;
use vstd::string::StringExecFns;

verus! {

/// What went wrong in a switch.
#[derive(Clone, Copy, Debug, PartialEq, Eq, Structural)]
pub enum ErrorKind {
    /// The directory is not an installation of the client.
    InstallationNotFound,
    /// A store could not be read.
    ConfigCorrupted,
    /// A store could not be written.
    ConfigWriteFailed,
    /// The player's name could not be set in the client's database.
    DatabaseEditFailed,
    /// The client could not be started.
    RelaunchFailed,
    /// The user called the switch off.
    UserCancelled,
}

/// An error of a switch: its kind, and the file that it happened on.
#[derive(Debug)]
pub struct SwitchError {
    pub kind: ErrorKind,
    /// The path of the file that could not be found, read, written or
    /// started.
    pub subject: String,
}

/// An error as plain values.
pub struct ErrorView {
    pub kind: ErrorKind,
    pub subject: Seq<char>,
}

impl View for SwitchError {
    type V = ErrorView;

    open spec fn view(&self) -> ErrorView {
        ErrorView { kind: self.kind, subject: self.subject@ }
    }
}

/// What a kind of error is called in a message.
pub open spec fn kind_text(kind: ErrorKind) -> Seq<char> {
    match kind {
        ErrorKind::InstallationNotFound => "no installation found"@,
        ErrorKind::ConfigCorrupted => "cannot read store"@,
        ErrorKind::ConfigWriteFailed => "cannot write store"@,
        ErrorKind::DatabaseEditFailed => "cannot edit database"@,
        ErrorKind::RelaunchFailed => "cannot relaunch client"@,
        ErrorKind::UserCancelled => "cancelled by user"@,
    }
}

impl SwitchError {
    /// The error as a message for the user: what failed, and on which
    /// file.
    pub fn describe(&self) -> (r: String)
        ensures
            r@ == kind_text(self.kind) + ": "@ + self.subject@,
    {
        let what = match self.kind {
            ErrorKind::InstallationNotFound => "no installation found",
            ErrorKind::ConfigCorrupted => "cannot read store",
            ErrorKind::ConfigWriteFailed => "cannot write store",
            ErrorKind::DatabaseEditFailed => "cannot edit database",
            ErrorKind::RelaunchFailed => "cannot relaunch client",
            ErrorKind::UserCancelled => "cancelled by user",
        };
        what.to_owned().concat(": ").concat(self.subject.as_str())
    }
}

} // verus!
