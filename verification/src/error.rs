//! The one error type that every failure of the tool ends in.

use vstd::prelude::*;

verus! {

/// What went wrong, by the part that failed. Each variant carries the text
/// that the failing part gave for it.
#[derive(Debug, Clone, PartialEq, Eq)]
pub enum AppError {
    /// A command could not be carried out as it was given.
    CmdError(String),
    /// The file system refused.
    IoError(String),
    /// A variable of the environment is missing or unreadable.
    EnvError(String),
    /// A payload is not the JSON it should be.
    SerdeError(String),
    /// The prompt was interrupted or has no terminal.
    PromptError(String),
    /// A text is not a number.
    ParseFloatError(String),
    /// The database refused.
    SqlError(String),
    /// A schema migration failed.
    MigrateError(String),
    /// A delimited text could not be read.
    CsvError(String),
}

impl AppError {
    /// The text that the failing part gave.
    pub open spec fn detail(&self) -> Seq<char> {
        match self {
            AppError::CmdError(text) => text@,
            AppError::IoError(text) => text@,
            AppError::EnvError(text) => text@,
            AppError::SerdeError(text) => text@,
            AppError::PromptError(text) => text@,
            AppError::ParseFloatError(text) => text@,
            AppError::SqlError(text) => text@,
            AppError::MigrateError(text) => text@,
            AppError::CsvError(text) => text@,
        }
    }

    /// What the user is shown: a failed command is introduced as one, every
    /// other failure speaks for itself.
    pub open spec fn shown(&self) -> Seq<char> {
        if self is CmdError {
            "executing command failed: "@ + self.detail()
        } else {
            self.detail()
        }
    }

    /// The text to show the user for this error.
    pub fn message(&self) -> (text: String)
        ensures
            text@ == self.shown(),
    {
        match self {
            AppError::CmdError(detail) => {
                let mut text = "executing command failed: ".to_owned();
                text.append(detail.as_str());
                text
            },
            AppError::IoError(detail) => detail.clone(),
            AppError::EnvError(detail) => detail.clone(),
            AppError::SerdeError(detail) => detail.clone(),
            AppError::PromptError(detail) => detail.clone(),
            AppError::ParseFloatError(detail) => detail.clone(),
            AppError::SqlError(detail) => detail.clone(),
            AppError::MigrateError(detail) => detail.clone(),
            AppError::CsvError(detail) => detail.clone(),
        }
    }
}

} // verus!
