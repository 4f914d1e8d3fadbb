//! Why a command was turned down, and the line that tells the user so.

use vstd::prelude::*;

verus! {

/// The reasons for which a command leaves the session as it was.
#[derive(Debug, PartialEq, Eq)]
pub enum CommandError {
    /// The first word of the input names no command.
    UnknownCommand { token: String },
    /// The command that loads a new glob was given no glob.
    MissingGlob,
    /// The command that sets the destination folder was given no path.
    MissingDestFolder,
    /// The command that caps the number of images was given no number.
    MissingMaximum,
    /// The sort order was not understood; `message` is what the parser of
    /// sort orders said of it.
    InvalidSortOrder { message: String },
    /// The cap on the number of images is not a count.
    NotACount { value: String },
    /// The path refers to a variable that is not defined.
    UndefinedVariable { name: String, cause: String },
    /// The path is not a well-formed glob pattern.
    PatternError { message: String },
    /// A match of the glob could not be read.
    UnexpectedPath { message: String },
    /// The glob matched no image.
    NoImagesFound { path: String },
    /// The glob matched no image and its text holds a space.
    TooManyArguments,
}

/// A `CommandError` as contracts speak of it: each text by its characters.
pub ghost enum ErrorView {
    UnknownCommand { token: Seq<char> },
    MissingGlob,
    MissingDestFolder,
    MissingMaximum,
    InvalidSortOrder { message: Seq<char> },
    NotACount { value: Seq<char> },
    UndefinedVariable { name: Seq<char>, cause: Seq<char> },
    PatternError { message: Seq<char> },
    UnexpectedPath { message: Seq<char> },
    NoImagesFound { path: Seq<char> },
    TooManyArguments,
}

impl View for CommandError {
    type V = ErrorView;

    open spec fn view(&self) -> ErrorView {
        match *self {
            CommandError::UnknownCommand { token } => ErrorView::UnknownCommand { token: token@ },
            CommandError::MissingGlob => ErrorView::MissingGlob,
            CommandError::MissingDestFolder => ErrorView::MissingDestFolder,
            CommandError::MissingMaximum => ErrorView::MissingMaximum,
            CommandError::InvalidSortOrder { message } => ErrorView::InvalidSortOrder {
                message: message@,
            },
            CommandError::NotACount { value } => ErrorView::NotACount { value: value@ },
            CommandError::UndefinedVariable { name, cause } => ErrorView::UndefinedVariable {
                name: name@,
                cause: cause@,
            },
            CommandError::PatternError { message } => ErrorView::PatternError { message: message@ },
            CommandError::UnexpectedPath { message } => ErrorView::UnexpectedPath {
                message: message@,
            },
            CommandError::NoImagesFound { path } => ErrorView::NoImagesFound { path: path@ },
            CommandError::TooManyArguments => ErrorView::TooManyArguments,
        }
    }
}

impl ErrorView {
    /// The characters of the line shown to the user.
    pub open spec fn message_text(self) -> Seq<char> {
        match self {
            ErrorView::UnknownCommand { token } => "No such command \""@ + token + "\""@,
            ErrorView::MissingGlob => "Command \"newglob\" or \":ng\" requires a glob"@,
            ErrorView::MissingDestFolder => "Command \":destfolder\" or \":d\" requires a path"@,
            ErrorView::MissingMaximum =>
                "Command \":max\" or \":m\" requires a new maximum number of files to display"@,
            ErrorView::InvalidSortOrder { message } => message,
            ErrorView::NotACount { value } => "\""@ + value + "\" is not a positive integer"@,
            ErrorView::UndefinedVariable { name, cause } => "\""@ + name + "\": "@ + cause,
            ErrorView::PatternError { message } => message,
            ErrorView::UnexpectedPath { message } => "Unexpected path "@ + message,
            ErrorView::NoImagesFound { path } => "Path \""@ + path + "\" had no images"@,
            ErrorView::TooManyArguments =>
                "Newglob accepts only one argument, but more were provided"@,
        }
    }
}

impl CommandError {

    /// The line shown to the user.
    pub fn message(&self) -> (line: String)
        ensures
            line@ == self@.message_text(),
    {
        match self {
            CommandError::UnknownCommand { token } => String::from_str("No such command \"").concat(
                token.as_str(),
            ).concat("\""),
            CommandError::MissingGlob => String::from_str(
                "Command \"newglob\" or \":ng\" requires a glob",
            ),
            CommandError::MissingDestFolder => String::from_str(
                "Command \":destfolder\" or \":d\" requires a path",
            ),
            CommandError::MissingMaximum => String::from_str(
                "Command \":max\" or \":m\" requires a new maximum number of files to display",
            ),
            CommandError::InvalidSortOrder { message } => message.clone(),
            CommandError::NotACount { value } => String::from_str("\"").concat(
                value.as_str(),
            ).concat("\" is not a positive integer"),
            CommandError::UndefinedVariable { name, cause } => String::from_str("\"").concat(
                name.as_str(),
            ).concat("\": ").concat(cause.as_str()),
            CommandError::PatternError { message } => message.clone(),
            CommandError::UnexpectedPath { message } => String::from_str(
                "Unexpected path ",
            ).concat(message.as_str()),
            CommandError::NoImagesFound { path } => String::from_str("Path \"").concat(
                path.as_str(),
            ).concat("\" had no images"),
            CommandError::TooManyArguments => String::from_str(
                "Newglob accepts only one argument, but more were provided",
            ),
        }
    }
}

} // verus!
