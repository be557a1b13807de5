//! The failures of an update cycle and the diagnostic line each one gets.

use vstd::prelude::*;

verus! {

/// The step of the cycle at which something happened.
#[derive(Clone, Copy, Debug, PartialEq, Eq, Structural)]
pub enum Stage {
    LoadConfig,
    DiscoverIp,
    ReadLog,
    Notify,
    AppendLog,
}

/// Why a cycle was abandoned.
#[derive(Debug, PartialEq, Eq)]
pub enum Error {
    /// The configuration is missing or malformed, or yields an endpoint that is no URL.
    ConfigError(String),
    /// An HTTPS call did not complete with a success status.
    NetworkError(String),
    /// The address service answered with nothing usable.
    EmptyResponseError,
    /// The change log could not be read or written.
    LogIOError(String),
}

/// An [`Error`] with its texts as sequences of characters.
pub enum ErrorView {
    ConfigError(Seq<char>),
    NetworkError(Seq<char>),
    EmptyResponseError,
    LogIOError(Seq<char>),
}

impl ErrorView {
    /// The text that says what went wrong.
    pub open spec fn detail(self) -> Seq<char> {
        match self {
            ErrorView::ConfigError(d) => d,
            ErrorView::NetworkError(d) => d,
            ErrorView::EmptyResponseError => "empty response body"@,
            ErrorView::LogIOError(d) => d,
        }
    }
}

impl View for Error {
    type V = ErrorView;

    open spec fn view(&self) -> ErrorView {
        match self {
            Error::ConfigError(d) => ErrorView::ConfigError(d@),
            Error::NetworkError(d) => ErrorView::NetworkError(d@),
            Error::EmptyResponseError => ErrorView::EmptyResponseError,
            Error::LogIOError(d) => ErrorView::LogIOError(d@),
        }
    }
}

impl Clone for Error {
    fn clone(&self) -> (copy: Self)
        ensures
            copy@ == self@,
    {
        match self {
            Error::ConfigError(d) => Error::ConfigError(d.clone()),
            Error::NetworkError(d) => Error::NetworkError(d.clone()),
            Error::EmptyResponseError => Error::EmptyResponseError,
            Error::LogIOError(d) => Error::LogIOError(d.clone()),
        }
    }
}

impl Error {
    /// The text that says what went wrong.
    pub fn detail(&self) -> (text: String)
        ensures
            text@ == self@.detail(),
    {
        match self {
            Error::ConfigError(d) => d.clone(),
            Error::NetworkError(d) => d.clone(),
            Error::EmptyResponseError => String::from_str("empty response body"),
            Error::LogIOError(d) => d.clone(),
        }
    }
}

/// What could not be done at each stage.
pub open spec fn stage_text(stage: Stage) -> Seq<char> {
    match stage {
        Stage::LoadConfig => "Could not get configuration."@,
        Stage::DiscoverIp => "Could not discover ip."@,
        Stage::ReadLog => "Could not read previous ip from log."@,
        Stage::Notify => "Could not tell the google service."@,
        Stage::AppendLog => "Could not write new ip to log."@,
    }
}

/// The line printed when `error` ends the cycle at `stage`.
pub open spec fn diagnostic_text(stage: Stage, error: ErrorView) -> Seq<char> {
    "[ ERROR ] "@ + stage_text(stage) + " "@ + error.detail()
}

/// Every diagnostic line begins with the same mark.
pub proof fn law_diagnostic_is_marked(stage: Stage, error: ErrorView)
    ensures
        "[ ERROR ] "@.is_prefix_of(diagnostic_text(stage, error)),
{
}

/// The line to print when `error` ends the cycle at `stage`.
pub fn diagnostic(stage: Stage, error: &Error) -> (line: String)
    ensures
        line@ == diagnostic_text(stage, error@),
{
    let mut line = String::from_str("[ ERROR ] ");
    match stage {
        Stage::LoadConfig => line.append("Could not get configuration."),
        Stage::DiscoverIp => line.append("Could not discover ip."),
        Stage::ReadLog => line.append("Could not read previous ip from log."),
        Stage::Notify => line.append("Could not tell the google service."),
        Stage::AppendLog => line.append("Could not write new ip to log."),
    }
    line.append(" ");
    let detail = error.detail();
    line.append(detail.as_str());
    line
}

} // verus!
