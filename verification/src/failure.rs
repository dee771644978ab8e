//! The errors of the filesystem gateway and of the project browser.

use vstd::prelude::*;
use vstd::string::*;

verus! {

/// What went wrong.
#[derive(Clone, Copy, Debug, PartialEq, Eq, Structural)]
pub enum ErrorKind {
    /// The target is not in the state the operation needs.
    Precondition,
    /// The filesystem, or the launch of a process, refused.
    Filesystem,
    /// The dependency installation ran and did not succeed.
    Installation,
}

/// An error with the message handed to the caller.
#[derive(Debug)]
pub struct GatewayError {
    pub kind: ErrorKind,
    pub message: String,
}

/// The message for a target that exists already.
pub open spec fn already_exists_text(path: Seq<char>) -> Seq<char> {
    "Directory '"@ + path + "' already exists."@
}

/// The message for a path that is no directory.
pub open spec fn not_a_directory_text(path: Seq<char>) -> Seq<char> {
    "'"@ + path + "' is not a valid directory."@
}

/// The message for an installation that did not succeed.
pub open spec fn install_failed_text() -> Seq<char> {
    "`npm install` failed"@
}

impl GatewayError {
    /// The target of an initialization exists already.
    pub fn already_exists(path: &str) -> (error: GatewayError)
        ensures
            error.kind == ErrorKind::Precondition,
            error.message@ == already_exists_text(path@),
    {
        let mut message = String::new();
        message.append("Directory '");
        message.append(path);
        message.append("' already exists.");
        assert(message@ =~= already_exists_text(path@));
        GatewayError { kind: ErrorKind::Precondition, message }
    }

    /// The path to browse is missing or no directory.
    pub fn not_a_directory(path: &str) -> (error: GatewayError)
        ensures
            error.kind == ErrorKind::Precondition,
            error.message@ == not_a_directory_text(path@),
    {
        let mut message = String::new();
        message.append("'");
        message.append(path);
        message.append("' is not a valid directory.");
        assert(message@ =~= not_a_directory_text(path@));
        GatewayError { kind: ErrorKind::Precondition, message }
    }

    /// A filesystem failure, with the message of the operating system.
    pub fn filesystem(message: String) -> (error: GatewayError)
        ensures
            error.kind == ErrorKind::Filesystem,
            error.message@ == message@,
    {
        GatewayError { kind: ErrorKind::Filesystem, message }
    }

    /// The installation ran and did not succeed.
    pub fn install_failed() -> (error: GatewayError)
        ensures
            error.kind == ErrorKind::Installation,
            error.message@ == install_failed_text(),
    {
        GatewayError { kind: ErrorKind::Installation, message: "`npm install` failed".to_owned() }
    }

    /// The message for the caller.
    pub fn message(&self) -> (text: String)
        ensures
            text@ == self.message@,
    {
        self.message.clone()
    }
}

} // verus!
