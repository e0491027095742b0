//! The errors of the library.

use vstd::prelude::*;
use vstd::string::StringExecFns;

verus! {

/// An error, as a mathematical value.
pub enum AppErrorView {
    Config(Seq<char>),
    FileSystem(Seq<char>),
    Token(Seq<char>),
    Provider(Seq<char>),
    Installation(Seq<char>),
    Io(Seq<char>),
    Json(Seq<char>),
    HomeDirNotFound,
}

/// What can go wrong.
#[derive(Debug)]
pub enum AppError {
    /// A configuration is not usable.
    Config(String),
    /// A path or a file is not as it should be.
    FileSystem(String),
    /// No usable token was given.
    Token(String),
    /// A provider cannot be switched to.
    Provider(String),
    /// The tool could not be installed.
    Installation(String),
    /// A file could not be read, written, renamed or removed.
    Io(String),
    /// A file does not hold the JSON that is expected of it.
    Json(String),
    /// The directory that holds the configuration cannot be found.
    HomeDirNotFound,
}

impl View for AppError {
    type V = AppErrorView;

    open spec fn view(&self) -> AppErrorView {
        match self {
            AppError::Config(detail) => AppErrorView::Config(detail@),
            AppError::FileSystem(detail) => AppErrorView::FileSystem(detail@),
            AppError::Token(detail) => AppErrorView::Token(detail@),
            AppError::Provider(detail) => AppErrorView::Provider(detail@),
            AppError::Installation(detail) => AppErrorView::Installation(detail@),
            AppError::Io(detail) => AppErrorView::Io(detail@),
            AppError::Json(detail) => AppErrorView::Json(detail@),
            AppError::HomeDirNotFound => AppErrorView::HomeDirNotFound,
        }
    }
}

impl AppErrorView {
    /// The text that describes the error to a person.
    pub open spec fn text(self) -> Seq<char> {
        match self {
            AppErrorView::Config(detail) => "Configuration error: "@ + detail,
            AppErrorView::FileSystem(detail) => "File system error: "@ + detail,
            AppErrorView::Token(detail) => "Token error: "@ + detail,
            AppErrorView::Provider(detail) => "Provider error: "@ + detail,
            AppErrorView::Installation(detail) => "Installation error: "@ + detail,
            AppErrorView::Io(detail) => "IO error: "@ + detail,
            AppErrorView::Json(detail) => "JSON error: "@ + detail,
            AppErrorView::HomeDirNotFound => "Home directory not found"@,
        }
    }
}

impl AppError {
    /// The text that describes the error to a person.
    pub fn message(&self) -> (text: String)
        ensures
            text@ == self@.text(),
    {
        match self {
            AppError::Config(detail) => String::from_str("Configuration error: ").concat(
                detail.as_str(),
            ),
            AppError::FileSystem(detail) => String::from_str("File system error: ").concat(
                detail.as_str(),
            ),
            AppError::Token(detail) => String::from_str("Token error: ").concat(detail.as_str()),
            AppError::Provider(detail) => String::from_str("Provider error: ").concat(
                detail.as_str(),
            ),
            AppError::Installation(detail) => String::from_str("Installation error: ").concat(
                detail.as_str(),
            ),
            AppError::Io(detail) => String::from_str("IO error: ").concat(detail.as_str()),
            AppError::Json(detail) => String::from_str("JSON error: ").concat(detail.as_str()),
            AppError::HomeDirNotFound => String::from_str("Home directory not found"),
        }
    }
}

impl Clone for AppError {
    fn clone(&self) -> (copy: Self)
        ensures
            copy@ == self@,
    {
        match self {
            AppError::Config(detail) => AppError::Config(detail.clone()),
            AppError::FileSystem(detail) => AppError::FileSystem(detail.clone()),
            AppError::Token(detail) => AppError::Token(detail.clone()),
            AppError::Provider(detail) => AppError::Provider(detail.clone()),
            AppError::Installation(detail) => AppError::Installation(detail.clone()),
            AppError::Io(detail) => AppError::Io(detail.clone()),
            AppError::Json(detail) => AppError::Json(detail.clone()),
            AppError::HomeDirNotFound => AppError::HomeDirNotFound,
        }
    }
}

impl From<AppError> for String {
    fn from(error: AppError) -> (text: String)
        ensures
            text@ == error@.text(),
    {
        error.message()
    }
}

impl vstd::std_specs::convert::FromSpecImpl<AppError> for String {
    open spec fn obeys_from_spec() -> bool {
        false
    }

    open spec fn from_spec(error: AppError) -> String {
        arbitrary()
    }
}

} // verus!
