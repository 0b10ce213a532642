//! What can go wrong, and the words in which it is reported.

use vstd::prelude::*;
use vstd::string::StringExecFns;

verus! {

/// An error of a run. The first six end the run; `FailedRead` and
/// `FailedParse` are warnings, after which the run goes on without the file.
#[derive(Debug)]
pub enum CliError {
    UnknownArg { arg: String },
    UnknownFlag { flag: String },
    UnknownLicense { license: String },
    InvalidFlag { flag: String, reason: String },
    MissingFlag { flag: String, reason: String },
    FailedWrite { path: String },
    FailedRead { kind: String },
    FailedParse { kind: String },
}

/// A [`CliError`] as plain sequences of characters.
pub enum CliErrorView {
    UnknownArg { arg: Seq<char> },
    UnknownFlag { flag: Seq<char> },
    UnknownLicense { license: Seq<char> },
    InvalidFlag { flag: Seq<char>, reason: Seq<char> },
    MissingFlag { flag: Seq<char>, reason: Seq<char> },
    FailedWrite { path: Seq<char> },
    FailedRead { kind: Seq<char> },
    FailedParse { kind: Seq<char> },
}

impl View for CliError {
    type V = CliErrorView;

    open spec fn view(&self) -> CliErrorView {
        match self {
            CliError::UnknownArg { arg } => CliErrorView::UnknownArg { arg: arg@ },
            CliError::UnknownFlag { flag } => CliErrorView::UnknownFlag { flag: flag@ },
            CliError::UnknownLicense { license } => CliErrorView::UnknownLicense {
                license: license@,
            },
            CliError::InvalidFlag { flag, reason } => CliErrorView::InvalidFlag {
                flag: flag@,
                reason: reason@,
            },
            CliError::MissingFlag { flag, reason } => CliErrorView::MissingFlag {
                flag: flag@,
                reason: reason@,
            },
            CliError::FailedWrite { path } => CliErrorView::FailedWrite { path: path@ },
            CliError::FailedRead { kind } => CliErrorView::FailedRead { kind: kind@ },
            CliError::FailedParse { kind } => CliErrorView::FailedParse { kind: kind@ },
        }
    }
}

impl DeepView for CliError {
    type V = CliErrorView;

    open spec fn deep_view(&self) -> CliErrorView {
        self@
    }
}

impl CliErrorView {
    /// Whether the error is a warning: the run goes on after it.
    pub open spec fn is_warning(self) -> bool {
        self is FailedRead || self is FailedParse
    }

    /// The words that report the error.
    pub open spec fn message(self) -> Seq<char> {
        match self {
            CliErrorView::UnknownArg { arg } => "Unknown argument '"@ + arg + "'!"@,
            CliErrorView::UnknownFlag { flag } => "Unknown flag '"@ + flag + "'!"@,
            CliErrorView::UnknownLicense { license } => "Unknown license '"@ + license + "'!"@,
            CliErrorView::InvalidFlag { flag, reason } => "Invalid "@ + flag + " flag! "@ + reason,
            CliErrorView::MissingFlag { flag, reason } => "Missing "@ + flag + " flag! "@ + reason,
            CliErrorView::FailedWrite { path } => "Failed to write to '"@ + path + "'!"@,
            CliErrorView::FailedRead { kind } => "A '"@ + kind
                + "' was found but failed to be read!"@,
            CliErrorView::FailedParse { kind } => "A '"@ + kind
                + "' was found but failed to be parsed!"@,
        }
    }
}

impl CliError {
    /// The words that report the error.
    pub fn message(&self) -> (line: String)
        ensures
            line@ == self@.message(),
    {
        match self {
            CliError::UnknownArg { arg } => String::from_str("Unknown argument '").concat(
                arg.as_str(),
            ).concat("'!"),
            CliError::UnknownFlag { flag } => String::from_str("Unknown flag '").concat(
                flag.as_str(),
            ).concat("'!"),
            CliError::UnknownLicense { license } => String::from_str("Unknown license '").concat(
                license.as_str(),
            ).concat("'!"),
            CliError::InvalidFlag { flag, reason } => String::from_str("Invalid ").concat(
                flag.as_str(),
            ).concat(" flag! ").concat(reason.as_str()),
            CliError::MissingFlag { flag, reason } => String::from_str("Missing ").concat(
                flag.as_str(),
            ).concat(" flag! ").concat(reason.as_str()),
            CliError::FailedWrite { path } => String::from_str("Failed to write to '").concat(
                path.as_str(),
            ).concat("'!"),
            CliError::FailedRead { kind } => String::from_str("A '").concat(kind.as_str()).concat(
                "' was found but failed to be read!",
            ),
            CliError::FailedParse { kind } => String::from_str("A '").concat(
                kind.as_str(),
            ).concat("' was found but failed to be parsed!"),
        }
    }

    /// The words that report an error that ends the run. They follow the
    /// label `ERROR` on the error stream, and the run ends with status 1.
    pub fn throw(&self) -> (line: String)
        requires
            !self@.is_warning(),
        ensures
            line@ == self@.message(),
    {
        self.message()
    }

    /// The words that report a warning. They follow the label `WARN` on the
    /// error stream, and the run goes on.
    pub fn warn(&self) -> (line: String)
        requires
            self@.is_warning(),
        ensures
            line@ == self@.message(),
    {
        self.message()
    }
}

} // verus!
