//! Failures of a compilation and the text they are reported with.

use vstd::prelude::*;
use vstd::string::StringExecFns;
use crate::codegen::CodegenError;
use crate::events::Position;
use crate::manifest::{Failure, FailureView, ManifestError, ManifestErrorView};
use crate::text::{decimal, push_decimal};

verus! {

/// The text of a structural failure.
pub open spec fn failure_text(failure: FailureView) -> Seq<char> {
    match failure {
        FailureView::UnexpectedElement { name } => "unexpected element <"@ + name + ">"@,
        FailureView::UnexpectedData => "unexpected data"@,
        FailureView::MalformedXml => "malformed XML"@,
        FailureView::UnexpectedEof => "unexpected EOF"@,
        FailureView::MissingData => "missing data"@,
    }
}

/// A position as it is shown: row and column counted from one, with a colon
/// between them.
pub open spec fn position_text(position: Position) -> Seq<char> {
    decimal((position.row + 1) as nat) + ":"@ + decimal((position.column + 1) as nat)
}

/// The text of a failure to read a manifest: the reader's diagnostic as it
/// came, or the position and the structural failure found there.
pub open spec fn manifest_error_text(error: ManifestErrorView) -> Seq<char> {
    match error {
        ManifestErrorView::Markup { diagnostic } => diagnostic,
        ManifestErrorView::Structure { failure, position } => position_text(position) + " "@
            + failure_text(failure),
    }
}

/// The text of a failure to generate the module.
pub open spec fn codegen_error_text(error: CodegenError) -> Seq<char> {
    match error {
        CodegenError::LengthMismatch { measured, read } => "bundle holds "@ + decimal(read as nat)
            + " bytes where "@ + decimal(measured as nat) + " were measured"@,
    }
}

impl Failure {
    /// The text of this failure.
    pub fn message(&self) -> (text: String)
        ensures
            text@ == failure_text(self@),
    {
        match self {
            Failure::UnexpectedElement { name } => {
                let mut text = String::from_str("unexpected element <");
                text.append(name.as_str());
                text.append(">");
                text
            },
            Failure::UnexpectedData => String::from_str("unexpected data"),
            Failure::MalformedXml => String::from_str("malformed XML"),
            Failure::UnexpectedEof => String::from_str("unexpected EOF"),
            Failure::MissingData => String::from_str("missing data"),
        }
    }
}

impl Position {
    /// This position as it is shown.
    pub fn to_string(&self) -> (text: String)
        ensures
            text@ == position_text(*self),
    {
        let mut text = String::new();
        push_decimal(&mut text, self.row as u128 + 1);
        text.append(":");
        push_decimal(&mut text, self.column as u128 + 1);
        assert(text@ =~= position_text(*self));
        text
    }
}

impl ManifestError {
    /// The text of this error.
    pub fn to_string(&self) -> (text: String)
        ensures
            text@ == manifest_error_text(self@),
    {
        match self {
            ManifestError::Markup { diagnostic } => diagnostic.clone(),
            ManifestError::Structure { failure, position } => {
                let mut text = position.to_string();
                text.append(" ");
                text.append(failure.message().as_str());
                text
            },
        }
    }
}

impl CodegenError {
    /// The text of this error.
    pub fn to_string(&self) -> (text: String)
        ensures
            text@ == codegen_error_text(*self),
    {
        match self {
            CodegenError::LengthMismatch { measured, read } => {
                let mut text = String::from_str("bundle holds ");
                push_decimal(&mut text, *read as u128);
                text.append(" bytes where ");
                push_decimal(&mut text, *measured as u128);
                text.append(" were measured");
                text
            },
        }
    }
}

/// What made a stage of the compilation fail.
#[derive(Clone, Debug, PartialEq, Eq)]
pub enum Cause {
    /// The system refused to read or write a file, or to start a process;
    /// its message.
    Io { message: String },
    /// The manifest could not be read as one.
    Manifest(ManifestError),
    /// The module could not be generated.
    Codegen(CodegenError),
}

/// A [`Cause`] as a mathematical value.
pub enum CauseView {
    Io { message: Seq<char> },
    Manifest(ManifestErrorView),
    Codegen(CodegenError),
}

impl View for Cause {
    type V = CauseView;

    open spec fn view(&self) -> CauseView {
        match self {
            Cause::Io { message } => CauseView::Io { message: message@ },
            Cause::Manifest(error) => CauseView::Manifest(error@),
            Cause::Codegen(error) => CauseView::Codegen(*error),
        }
    }
}

/// The text of a cause.
pub open spec fn cause_text(cause: CauseView) -> Seq<char> {
    match cause {
        CauseView::Io { message } => message,
        CauseView::Manifest(error) => manifest_error_text(error),
        CauseView::Codegen(error) => codegen_error_text(error),
    }
}

impl Cause {
    /// The text of this cause.
    pub fn to_string(&self) -> (text: String)
        ensures
            text@ == cause_text(self@),
    {
        match self {
            Cause::Io { message } => message.clone(),
            Cause::Manifest(error) => error.to_string(),
            Cause::Codegen(error) => error.to_string(),
        }
    }
}

/// A failure together with a note on what was being done when it happened.
#[derive(Clone, Debug, PartialEq, Eq)]
pub struct CustomError {
    /// The failure itself.
    pub cause: Cause,
    /// What was being done, and to what.
    pub note: String,
}

/// A [`CustomError`] as a mathematical value.
pub struct CustomErrorView {
    pub cause: CauseView,
    pub note: Seq<char>,
}

impl View for CustomError {
    type V = CustomErrorView;

    open spec fn view(&self) -> CustomErrorView {
        CustomErrorView { cause: self.cause@, note: self.note@ }
    }
}

/// The text of a noted failure: the cause, a space, the note.
pub open spec fn custom_error_text(error: CustomErrorView) -> Seq<char> {
    cause_text(error.cause) + " "@ + error.note
}

impl CustomError {
    /// Attaches `note` to `cause`.
    pub fn new(cause: Cause, note: String) -> (error: CustomError)
        ensures
            error.cause == cause,
            error.note == note,
    {
        CustomError { cause, note }
    }

    /// The text of this error: the cause, a space, the note.
    pub fn to_string(&self) -> (text: String)
        ensures
            text@ == custom_error_text(self@),
    {
        let mut text = self.cause.to_string();
        text.append(" ");
        text.append(self.note.as_str());
        text
    }

    /// The text of the cause alone.
    pub fn description(&self) -> (text: String)
        ensures
            text@ == cause_text(self@.cause),
    {
        self.cause.to_string()
    }

    /// The failure that this error notes.
    pub fn cause(&self) -> (cause: &Cause)
        ensures
            *cause == self.cause,
    {
        &self.cause
    }
}

} // verus!
