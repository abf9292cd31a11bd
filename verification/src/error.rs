//! The error taxonomy shared by every operation of the engine.

use vstd::prelude::*;
use vstd::string::*;

verus! {

/// What can go wrong. No error is retried or swallowed; each reaches the
/// caller as one of these.
#[derive(Debug, Clone)]
pub enum AppError {
    /// A round trip to the server failed; the text is the driver's report.
    Database(String),
    ConnectionNotFound(String),
    AlreadyConnected,
    NotConnected,
    /// An identifier was refused, a write was asked of a table without a
    /// primary key, or a stored configuration was malformed.
    InvalidConfig(String),
    ExportError(String),
    AiError(String),
    ConfigError(String),
}

/// An error as a mathematical value: the variant and the characters it carries.
pub enum ErrorView {
    Database(Seq<char>),
    ConnectionNotFound(Seq<char>),
    AlreadyConnected,
    NotConnected,
    InvalidConfig(Seq<char>),
    ExportError(Seq<char>),
    AiError(Seq<char>),
    ConfigError(Seq<char>),
}

impl View for AppError {
    type V = ErrorView;

    open spec fn view(&self) -> ErrorView {
        match self {
            AppError::Database(m) => ErrorView::Database(m@),
            AppError::ConnectionNotFound(m) => ErrorView::ConnectionNotFound(m@),
            AppError::AlreadyConnected => ErrorView::AlreadyConnected,
            AppError::NotConnected => ErrorView::NotConnected,
            AppError::InvalidConfig(m) => ErrorView::InvalidConfig(m@),
            AppError::ExportError(m) => ErrorView::ExportError(m@),
            AppError::AiError(m) => ErrorView::AiError(m@),
            AppError::ConfigError(m) => ErrorView::ConfigError(m@),
        }
    }
}

/// The text shown to a user for an error.
pub open spec fn error_text(e: ErrorView) -> Seq<char> {
    match e {
        ErrorView::Database(m) => "Database error: "@ + m,
        ErrorView::ConnectionNotFound(m) => "Connection not found: "@ + m,
        ErrorView::AlreadyConnected => "Already connected"@,
        ErrorView::NotConnected => "Not connected"@,
        ErrorView::InvalidConfig(m) => "Invalid configuration: "@ + m,
        ErrorView::ExportError(m) => "Export error: "@ + m,
        ErrorView::AiError(m) => "AI error: "@ + m,
        ErrorView::ConfigError(m) => "Config error: "@ + m,
    }
}

fn prefixed(prefix: &str, detail: &String) -> (out: String)
    ensures
        out@ == prefix@ + detail@,
{
    let mut out = String::from_str(prefix);
    out.append(detail.as_str());
    out
}

impl AppError {
    /// The user-presentable text of this error.
    pub fn message(&self) -> (out: String)
        ensures
            out@ == error_text(self@),
    {
        match self {
            AppError::Database(m) => prefixed("Database error: ", m),
            AppError::ConnectionNotFound(m) => prefixed("Connection not found: ", m),
            AppError::AlreadyConnected => String::from_str("Already connected"),
            AppError::NotConnected => String::from_str("Not connected"),
            AppError::InvalidConfig(m) => prefixed("Invalid configuration: ", m),
            AppError::ExportError(m) => prefixed("Export error: ", m),
            AppError::AiError(m) => prefixed("AI error: ", m),
            AppError::ConfigError(m) => prefixed("Config error: ", m),
        }
    }
}

} // verus!
