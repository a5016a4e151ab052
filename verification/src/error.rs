//! What can stop the application from starting.

use vstd::prelude::*;

verus! {

/// Where the parser gave up on the configuration file, and why.
#[derive(Clone, Debug, PartialEq, Eq)]
pub struct SyntaxError {
    pub line: usize,
    pub col: usize,
    pub message: String,
}

impl View for SyntaxError {
    type V = (nat, nat, Seq<char>);

    open spec fn view(&self) -> (nat, nat, Seq<char>) {
        (self.line as nat, self.col as nat, self.message@)
    }
}

/// Why no configuration file could be put in place. None of these is
/// retried: all the caller can sensibly do is report the failure and exit.
#[derive(Clone, Copy, Debug, PartialEq, Eq, Structural)]
pub enum ProvisioningError {
    /// The platform names no configuration directory for the user.
    NoConfigDirectory,
    /// The application's directory was missing and could not be created.
    DirectoryNotCreated,
    /// The configuration template could not be fetched.
    TemplateNotFetched,
    /// The fetched template could not be written to the configuration file.
    FileNotWritten,
    /// The caller reported something the provisioner was not waiting for.
    UnexpectedEvent,
}

} // verus!
