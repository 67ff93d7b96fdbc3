//! The failures that session operations report, and how the failure of one
//! outside step is turned into one of them.

use vstd::prelude::*;
use crate::text::joined;

verus! {

/// Why a session operation failed.
#[derive(Debug, Clone, PartialEq, Eq)]
pub enum SessionError {
    /// No live session has the given identifier.
    NotFound,
    /// The launch parameters cannot be used.
    ConfigurationError(String),
    /// The browser, or the connection to it, failed.
    ConnectionError(String),
    /// The session has no page to run the command on.
    NoActivePage,
    /// Something could not be stored locally.
    IoError(String),
}

/// A failure as contracts speak of it: a `SessionError` with its messages
/// as sequences of characters.
pub enum Failure {
    NotFound,
    Configuration(Seq<char>),
    Connection(Seq<char>),
    NoActivePage,
    Io(Seq<char>),
}

impl View for SessionError {
    type V = Failure;

    open spec fn view(&self) -> Failure {
        match self {
            SessionError::NotFound => Failure::NotFound,
            SessionError::ConfigurationError(message) => Failure::Configuration(message@),
            SessionError::ConnectionError(message) => Failure::Connection(message@),
            SessionError::NoActivePage => Failure::NoActivePage,
            SessionError::IoError(message) => Failure::Io(message@),
        }
    }
}

impl Failure {
    /// The message that a caller is shown for this failure.
    pub open spec fn message(self) -> Seq<char> {
        match self {
            Failure::NotFound => "Browser instance not found"@,
            Failure::Configuration(message) => message,
            Failure::Connection(message) => message,
            Failure::NoActivePage => "No active page found"@,
            Failure::Io(message) => message,
        }
    }
}

impl SessionError {
    /// The message that a caller is shown for this failure.
    pub fn message(&self) -> (text: String)
        ensures
            text@ == self@.message(),
    {
        match self {
            SessionError::NotFound => String::from_str("Browser instance not found"),
            SessionError::ConfigurationError(message) => message.clone(),
            SessionError::ConnectionError(message) => message.clone(),
            SessionError::NoActivePage => String::from_str("No active page found"),
            SessionError::IoError(message) => message.clone(),
        }
    }
}

/// A step that is carried out outside this library and may fail.
#[derive(Debug, Clone, Copy, PartialEq, Eq, Structural)]
pub enum Stage {
    /// Putting the browser's configuration together.
    BuildConfig,
    /// Starting the browser and connecting to it.
    Launch,
    /// Opening a new page.
    CreatePage,
    /// Loading a document into a page.
    Navigate,
    /// Asking the connection for its pages.
    ListPages,
    /// Evaluating a script in a page.
    Evaluate,
    /// Writing an evaluated value down as JSON text.
    Serialize,
    /// Capturing a page as an image.
    Capture,
    /// Storing the captured image in a file.
    WriteFile,
    /// Reading a page's markup.
    ReadContent,
}

impl Stage {
    /// What the message of a failure at this stage starts with.
    pub open spec fn prefix(self) -> Seq<char> {
        match self {
            Stage::BuildConfig => "Failed to build config: "@,
            Stage::Launch => "Failed to launch browser: "@,
            Stage::CreatePage => "Failed to create page: "@,
            Stage::Navigate => "Failed to navigate: "@,
            Stage::ListPages => "Failed to get pages: "@,
            Stage::Evaluate => "Failed to execute JS: "@,
            Stage::Serialize => "Failed to serialize result: "@,
            Stage::Capture => "Failed to take screenshot: "@,
            Stage::WriteFile => "Failed to write screenshot: "@,
            Stage::ReadContent => "Failed to get content: "@,
        }
    }

    /// The failure that is reported when this stage fails with `detail`:
    /// an I/O failure for the one stage that stores a file, a connection
    /// failure for all others; the message is the stage's prefix and then
    /// the detail.
    pub open spec fn failure(self, detail: Seq<char>) -> Failure {
        if self == Stage::WriteFile {
            Failure::Io(self.prefix() + detail)
        } else {
            Failure::Connection(self.prefix() + detail)
        }
    }

    /// What the message of a failure at this stage starts with.
    pub fn prefix_text(self) -> (text: &'static str)
        ensures
            text@ == self.prefix(),
    {
        match self {
            Stage::BuildConfig => "Failed to build config: ",
            Stage::Launch => "Failed to launch browser: ",
            Stage::CreatePage => "Failed to create page: ",
            Stage::Navigate => "Failed to navigate: ",
            Stage::ListPages => "Failed to get pages: ",
            Stage::Evaluate => "Failed to execute JS: ",
            Stage::Serialize => "Failed to serialize result: ",
            Stage::Capture => "Failed to take screenshot: ",
            Stage::WriteFile => "Failed to write screenshot: ",
            Stage::ReadContent => "Failed to get content: ",
        }
    }

    /// The error that is reported when this stage fails with `detail`.
    pub fn failed(self, detail: &str) -> (error: SessionError)
        ensures
            error@ == self.failure(detail@),
    {
        let message = joined(self.prefix_text(), detail);
        match self {
            Stage::WriteFile => SessionError::IoError(message),
            _ => SessionError::ConnectionError(message),
        }
    }
}

/// How a call went wrong, in broad terms.
#[derive(Debug, Clone, Copy, PartialEq, Eq, Structural)]
pub enum Status {
    /// The caller's arguments cannot be used.
    InvalidArg,
    /// The arguments were in order, and the work still failed.
    GenericFailure,
}

impl Failure {
    /// How the failure is classed for a caller outside: an unknown
    /// session and unusable launch parameters are the caller's to mend,
    /// every other failure is not.
    pub open spec fn status(self) -> Status {
        match self {
            Failure::NotFound => Status::InvalidArg,
            Failure::Configuration(_) => Status::InvalidArg,
            _ => Status::GenericFailure,
        }
    }
}

impl SessionError {
    /// How the failure is classed for a caller outside.
    pub fn status(&self) -> (status: Status)
        ensures
            status == self@.status(),
    {
        match self {
            SessionError::NotFound => Status::InvalidArg,
            SessionError::ConfigurationError(_) => Status::InvalidArg,
            _ => Status::GenericFailure,
        }
    }
}

/// Why a utility call failed.
#[derive(Debug, Clone, PartialEq, Eq)]
pub struct ToolError {
    pub status: Status,
    pub reason: String,
}

/// A `ToolError` as contracts speak of it.
pub struct ToolFailure {
    pub status: Status,
    pub reason: Seq<char>,
}

impl View for ToolError {
    type V = ToolFailure;

    open spec fn view(&self) -> ToolFailure {
        ToolFailure { status: self.status, reason: self.reason@ }
    }
}

impl ToolFailure {
    /// The failure for arguments that cannot be used.
    pub open spec fn invalid(reason: Seq<char>) -> ToolFailure {
        ToolFailure { status: Status::InvalidArg, reason }
    }

    /// The failure for work that went wrong.
    pub open spec fn generic(reason: Seq<char>) -> ToolFailure {
        ToolFailure { status: Status::GenericFailure, reason }
    }
}

impl ToolError {
    /// The error for arguments that cannot be used.
    pub fn invalid(reason: String) -> (error: ToolError)
        ensures
            error@ == ToolFailure::invalid(reason@),
    {
        ToolError { status: Status::InvalidArg, reason }
    }

    /// The error for work that went wrong.
    pub fn generic(reason: String) -> (error: ToolError)
        ensures
            error@ == ToolFailure::generic(reason@),
    {
        ToolError { status: Status::GenericFailure, reason }
    }
}

} // verus!
