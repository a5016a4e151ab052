//! Making sure that a configuration file exists before it is read.
//!
//! The provisioner touches neither the disk nor the network. It is a state
//! machine: it names the next thing to do, the caller does it and reports
//! what came of it, and the provisioner decides how to go on. A missing
//! file is seeded from a template that is fetched once; a file that is
//! already there is never fetched for and never overwritten.

use crate::error::ProvisioningError;
use crate::path::ConfigPath;
use vstd::prelude::*;

verus! {

/// Where the configuration template is fetched from.
pub const TEMPLATE_URL: &'static str =
    "https://raw.githubusercontent.com/Builditluc/wiki-tui/stable/config.ini";

/// What the caller is asked to do next.
#[derive(Debug, PartialEq, Eq)]
pub enum Action {
    /// Ask the platform for the user's configuration directory.
    ResolveConfigDirectory,
    /// Find out whether the application's directory exists.
    ProbeDirectory(ConfigPath),
    /// Create the application's directory.
    CreateDirectory(ConfigPath),
    /// Find out whether the configuration file exists.
    ProbeFile(ConfigPath),
    /// Fetch the template from this address.
    FetchTemplate(&'static str),
    /// Create the configuration file with exactly these bytes.
    WriteFile(ConfigPath, Vec<u8>),
    /// The file is in place: read it and load the configuration.
    Load(ConfigPath),
    /// Give up.
    Abort(ProvisioningError),
}

/// What the caller reports back.
#[derive(Debug, PartialEq, Eq)]
pub enum Event {
    /// The user's configuration directory, if the platform names one.
    ConfigDirectory(Option<String>),
    /// Whether the application's directory exists.
    DirectoryExists(bool),
    /// Whether creating the application's directory worked.
    DirectoryCreated(bool),
    /// Whether the configuration file exists.
    FileExists(bool),
    /// The body of the template, if it could be fetched.
    TemplateFetched(Option<Vec<u8>>),
    /// Whether writing the configuration file worked.
    FileWritten(bool),
}

/// How far provisioning has come, and what it is waiting to hear.
#[derive(Debug, PartialEq, Eq)]
pub enum Provisioner {
    /// Waiting for the user's configuration directory.
    Resolving,
    /// Waiting to hear whether the application's directory exists.
    ProbingDirectory(ConfigPath),
    /// Waiting to hear whether the application's directory was created.
    CreatingDirectory(ConfigPath),
    /// Waiting to hear whether the configuration file exists.
    ProbingFile(ConfigPath),
    /// Waiting for the template.
    Fetching(ConfigPath),
    /// Waiting to hear whether the configuration file was written.
    Writing(ConfigPath),
    /// Done: the configuration file exists.
    Ready(ConfigPath),
    /// Done: provisioning failed.
    Failed(ProvisioningError),
}

impl Provisioner {
    /// The provisioner's state after an event, and the action it then asks
    /// for.
    ///
    /// A directory that had to be created cannot hold a file yet, so the
    /// template is fetched without probing for the file. Once provisioning
    /// is done, one way or the other, further events change nothing. An
    /// event that answers a question the provisioner did not ask makes it
    /// fail.
    pub open spec fn spec_step(self, event: Event) -> (Provisioner, Action) {
        match (self, event) {
            (Provisioner::Resolving, Event::ConfigDirectory(Some(config_dir))) => (
                Provisioner::ProbingDirectory(ConfigPath { config_dir }),
                Action::ProbeDirectory(ConfigPath { config_dir }),
            ),
            (Provisioner::Resolving, Event::ConfigDirectory(None)) => failure(
                ProvisioningError::NoConfigDirectory,
            ),
            (Provisioner::ProbingDirectory(path), Event::DirectoryExists(true)) => (
                Provisioner::ProbingFile(path),
                Action::ProbeFile(path),
            ),
            (Provisioner::ProbingDirectory(path), Event::DirectoryExists(false)) => (
                Provisioner::CreatingDirectory(path),
                Action::CreateDirectory(path),
            ),
            (Provisioner::CreatingDirectory(path), Event::DirectoryCreated(true)) => (
                Provisioner::Fetching(path),
                Action::FetchTemplate(TEMPLATE_URL),
            ),
            (Provisioner::CreatingDirectory(_), Event::DirectoryCreated(false)) => failure(
                ProvisioningError::DirectoryNotCreated,
            ),
            (Provisioner::ProbingFile(path), Event::FileExists(true)) => (
                Provisioner::Ready(path),
                Action::Load(path),
            ),
            (Provisioner::ProbingFile(path), Event::FileExists(false)) => (
                Provisioner::Fetching(path),
                Action::FetchTemplate(TEMPLATE_URL),
            ),
            (Provisioner::Fetching(path), Event::TemplateFetched(Some(body))) => (
                Provisioner::Writing(path),
                Action::WriteFile(path, body),
            ),
            (Provisioner::Fetching(_), Event::TemplateFetched(None)) => failure(
                ProvisioningError::TemplateNotFetched,
            ),
            (Provisioner::Writing(path), Event::FileWritten(true)) => (
                Provisioner::Ready(path),
                Action::Load(path),
            ),
            (Provisioner::Writing(_), Event::FileWritten(false)) => failure(
                ProvisioningError::FileNotWritten,
            ),
            (Provisioner::Ready(path), _) => (Provisioner::Ready(path), Action::Load(path)),
            (Provisioner::Failed(error), _) => failure(error),
            _ => failure(ProvisioningError::UnexpectedEvent),
        }
    }

    /// Whether provisioning has come to an end.
    pub open spec fn spec_is_done(self) -> bool {
        self is Ready || self is Failed
    }

    /// A provisioner at the start of its work, and the first action.
    pub fn start() -> (first: (Provisioner, Action))
        ensures
            first == (Provisioner::Resolving, Action::ResolveConfigDirectory),
    {
        (Provisioner::Resolving, Action::ResolveConfigDirectory)
    }

    /// Whether provisioning has come to an end.
    pub fn is_done(&self) -> (done: bool)
        ensures
            done == self.spec_is_done(),
    {
        match self {
            Provisioner::Ready(_) => true,
            Provisioner::Failed(_) => true,
            _ => false,
        }
    }

    /// Takes in what the caller reports and decides how to go on.
    pub fn step(self, event: Event) -> (next: (Provisioner, Action))
        ensures
            next == self.spec_step(event),
    {
        match self {
            Provisioner::Resolving => match event {
                Event::ConfigDirectory(Some(config_dir)) => {
                    let path = ConfigPath::new(config_dir);
                    let target = path.duplicate();
                    (Provisioner::ProbingDirectory(path), Action::ProbeDirectory(target))
                },
                Event::ConfigDirectory(None) => fail(ProvisioningError::NoConfigDirectory),
                _ => fail(ProvisioningError::UnexpectedEvent),
            },
            Provisioner::ProbingDirectory(path) => match event {
                Event::DirectoryExists(exists) => {
                    let target = path.duplicate();
                    if exists {
                        (Provisioner::ProbingFile(path), Action::ProbeFile(target))
                    } else {
                        (Provisioner::CreatingDirectory(path), Action::CreateDirectory(target))
                    }
                },
                _ => fail(ProvisioningError::UnexpectedEvent),
            },
            Provisioner::CreatingDirectory(path) => match event {
                Event::DirectoryCreated(true) => (
                    Provisioner::Fetching(path),
                    Action::FetchTemplate(TEMPLATE_URL),
                ),
                Event::DirectoryCreated(false) => fail(ProvisioningError::DirectoryNotCreated),
                _ => fail(ProvisioningError::UnexpectedEvent),
            },
            Provisioner::ProbingFile(path) => match event {
                Event::FileExists(true) => {
                    let target = path.duplicate();
                    (Provisioner::Ready(path), Action::Load(target))
                },
                Event::FileExists(false) => (
                    Provisioner::Fetching(path),
                    Action::FetchTemplate(TEMPLATE_URL),
                ),
                _ => fail(ProvisioningError::UnexpectedEvent),
            },
            Provisioner::Fetching(path) => match event {
                Event::TemplateFetched(Some(body)) => {
                    let target = path.duplicate();
                    (Provisioner::Writing(path), Action::WriteFile(target, body))
                },
                Event::TemplateFetched(None) => fail(ProvisioningError::TemplateNotFetched),
                _ => fail(ProvisioningError::UnexpectedEvent),
            },
            Provisioner::Writing(path) => match event {
                Event::FileWritten(true) => {
                    let target = path.duplicate();
                    (Provisioner::Ready(path), Action::Load(target))
                },
                Event::FileWritten(false) => fail(ProvisioningError::FileNotWritten),
                _ => fail(ProvisioningError::UnexpectedEvent),
            },
            Provisioner::Ready(path) => {
                let target = path.duplicate();
                (Provisioner::Ready(path), Action::Load(target))
            },
            Provisioner::Failed(error) => fail(error),
        }
    }
}

/// The end of provisioning for a reason.
pub open spec fn failure(error: ProvisioningError) -> (Provisioner, Action) {
    (Provisioner::Failed(error), Action::Abort(error))
}

fn fail(error: ProvisioningError) -> (end: (Provisioner, Action))
    ensures
        end == failure(error),
{
    (Provisioner::Failed(error), Action::Abort(error))
}

} // verus!
