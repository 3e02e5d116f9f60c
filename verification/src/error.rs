//! The error taxonomy of the collaborators around the cell.
//!
//! The cell itself — flag, state, guard — is error-free by construction: no
//! input/output, no fallible parsing. The collaborators that persist a
//! configuration, rotate a log directory or tail a file surface this small
//! closed set of failures.

use vstd::prelude::*;
use vstd::string::StringExecFns;

verus! {

#[verifier::external_type_specification]
#[verifier::external_body]
pub struct ExIoError(std::io::Error);

#[verifier::external_type_specification]
#[verifier::external_body]
pub struct ExSetLoggerError(log::SetLoggerError);

/// Relies on `std::io::Error`'s `Display` impl for the human-readable text
/// of the failure; the text is opaque, so nothing is promised of it.
#[verifier::external_body]
fn io_error_text(e: &std::io::Error) -> String {
    format!("{}", e)
}

/// Relies on `log::SetLoggerError`'s `Display` impl for the human-readable
/// text of the failure; the text is opaque, so nothing is promised of it.
#[verifier::external_body]
fn set_logger_error_text(e: &log::SetLoggerError) -> String {
    format!("{}", e)
}

/// The error.
#[derive(Debug)]
pub enum Error {
    /// An input/output failure.
    Io(std::io::Error),
    /// The process-wide logger was already installed.
    LoggerInit(log::SetLoggerError),
    /// A config file whose extension names no supported document format;
    /// holds the offending extension.
    ConfigExt(String),
    /// A file could not be opened.
    OpenFile(std::io::Error),
    /// A file could not be read.
    ReadFile(std::io::Error),
}

impl Error {
    /// The human-readable description of the error: a fixed phrase per
    /// variant, followed by the detail the variant carries.
    pub fn message(&self) -> (r: String)
        ensures
            (match self {
                Error::Io(_) => true,
                Error::LoggerInit(_) => (exists|d: Seq<char>|
                    r@ == "Logger initialize error: "@ + d),
                Error::ConfigExt(ext) => r@ == "Unsupported config extension '."@ + ext@
                    + "'."@,
                Error::OpenFile(_) => (exists|d: Seq<char>| r@ == "Failed to open file: "@ + d),
                Error::ReadFile(_) => (exists|d: Seq<char>| r@ == "Failed to read file: "@ + d),
            }),
    {
        match self {
            Error::Io(e) => io_error_text(e),
            Error::LoggerInit(e) => {
                let mut m = "Logger initialize error: ".to_owned();
                let detail = set_logger_error_text(e);
                m.append(detail.as_str());
                m
            },
            Error::ConfigExt(ext) => {
                let mut m = "Unsupported config extension '.".to_owned();
                m.append(ext.as_str());
                m.append("'.");
                m
            },
            Error::OpenFile(e) => {
                let mut m = "Failed to open file: ".to_owned();
                let detail = io_error_text(e);
                m.append(detail.as_str());
                m
            },
            Error::ReadFile(e) => {
                let mut m = "Failed to read file: ".to_owned();
                let detail = io_error_text(e);
                m.append(detail.as_str());
                m
            },
        }
    }
}

impl From<std::io::Error> for Error {
    /// An input/output failure carried over unchanged.
    fn from(e: std::io::Error) -> (r: Error) {
        Error::Io(e)
    }
}

impl vstd::std_specs::convert::FromSpecImpl<std::io::Error> for Error {
    open spec fn obeys_from_spec() -> bool {
        true
    }

    open spec fn from_spec(e: std::io::Error) -> Error {
        Error::Io(e)
    }
}

impl From<log::SetLoggerError> for Error {
    /// A logger-already-installed failure carried over unchanged.
    fn from(e: log::SetLoggerError) -> (r: Error) {
        Error::LoggerInit(e)
    }
}

impl vstd::std_specs::convert::FromSpecImpl<log::SetLoggerError> for Error {
    open spec fn obeys_from_spec() -> bool {
        true
    }

    open spec fn from_spec(e: log::SetLoggerError) -> Error {
        Error::LoggerInit(e)
    }
}

} // verus!
