//! The ways in which a generation run fails, and the diagnostics they give.

use vstd::prelude::*;
use vstd::string::StringExecFns;

verus! {

/// What is wrong with the argument list of an invocation.
#[derive(Clone, Copy, Debug, PartialEq, Eq)]
pub enum ArgumentFault {
    /// The argument list does not consist of exactly one segment.
    SegmentCount,
    /// The single segment does not start with `file` or holds no `=`.
    NotFileArgument,
}

/// A failed generation run.
#[derive(Debug, PartialEq, Eq)]
pub enum LabelError {
    /// The argument list is not of the form `file = "path"`.
    ArgumentFormat(ArgumentFault),
    /// The mapping file at `path` could not be read.
    FileRead { path: String, message: String },
    /// The content of the mapping file is not a flat table of integers.
    MappingParse { message: String },
    /// The declaration that the generator is applied to is not an enum.
    TargetKind,
}

/// The mathematical value of a [`LabelError`].
pub ghost enum LabelErrorView {
    ArgumentFormat(ArgumentFault),
    FileRead { path: Seq<char>, message: Seq<char> },
    MappingParse { message: Seq<char> },
    TargetKind,
}

impl View for LabelError {
    type V = LabelErrorView;

    open spec fn view(&self) -> LabelErrorView {
        match self {
            LabelError::ArgumentFormat(fault) => LabelErrorView::ArgumentFormat(*fault),
            LabelError::FileRead { path, message } => LabelErrorView::FileRead {
                path: path@,
                message: message@,
            },
            LabelError::MappingParse { message } => LabelErrorView::MappingParse {
                message: message@,
            },
            LabelError::TargetKind => LabelErrorView::TargetKind,
        }
    }
}

impl LabelErrorView {
    /// The text of the diagnostic that reports this failure.
    pub open spec fn message(self) -> Seq<char> {
        match self {
            LabelErrorView::ArgumentFormat(ArgumentFault::SegmentCount) => {
                "Expected format: file = \"path\""@
            },
            LabelErrorView::ArgumentFormat(ArgumentFault::NotFileArgument) => {
                "First argument must be file path, expected format: file = \"path\""@
            },
            LabelErrorView::FileRead { path, message } => {
                "Failed to read file "@ + path + ": "@ + message
            },
            LabelErrorView::MappingParse { message } => "Failed to parse TOML file: "@ + message,
            LabelErrorView::TargetKind => "This macro can only be used on enums"@,
        }
    }

    /// Whether the diagnostic is attached to the place of the invocation.
    /// Only the failure on a target that is no enum is reported without one.
    pub open spec fn located(self) -> bool {
        !(self is TargetKind)
    }
}

impl LabelError {
    /// The text of the diagnostic that reports this failure.
    pub fn message(&self) -> (text: String)
        ensures
            text@ == self@.message(),
    {
        match self {
            LabelError::ArgumentFormat(ArgumentFault::SegmentCount) => {
                "Expected format: file = \"path\"".to_owned()
            },
            LabelError::ArgumentFormat(ArgumentFault::NotFileArgument) => {
                "First argument must be file path, expected format: file = \"path\"".to_owned()
            },
            LabelError::FileRead { path, message } => {
                let mut text = "Failed to read file ".to_owned();
                text.append(path.as_str());
                text.append(": ");
                text.append(message.as_str());
                text
            },
            LabelError::MappingParse { message } => {
                let mut text = "Failed to parse TOML file: ".to_owned();
                text.append(message.as_str());
                text
            },
            LabelError::TargetKind => "This macro can only be used on enums".to_owned(),
        }
    }

    /// Whether the diagnostic is attached to the place of the invocation.
    pub fn is_located(&self) -> (yes: bool)
        ensures
            yes == self@.located(),
    {
        match self {
            LabelError::TargetKind => false,
            _ => true,
        }
    }
}

} // verus!
