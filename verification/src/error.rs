//! The ways in which a run can fail.

use vstd::prelude::*;
use vstd::string::*;

verus! {

/// A failure of a run. Every failure is fatal: no manifest is produced.
#[derive(Debug, PartialEq, Eq)]
pub enum SecretError {
    /// The required secret name is missing.
    ConfigurationError,
    /// No password can be generated under the policy; carries the
    /// generator's own explanation.
    GenerationError(String),
    /// A file, standard input or the sealer's input channel failed; carries
    /// the collaborator's explanation.
    IoError(String),
    /// No file name can be taken from the path that it carries.
    PathError(String),
    /// The sealing tool could not be started; carries the explanation.
    SubprocessSpawnError(String),
}

/// The mathematical value of a [`SecretError`].
pub enum SecretErrorView {
    ConfigurationError,
    GenerationError(Seq<char>),
    IoError(Seq<char>),
    PathError(Seq<char>),
    SubprocessSpawnError(Seq<char>),
}

impl View for SecretError {
    type V = SecretErrorView;

    open spec fn view(&self) -> SecretErrorView {
        match self {
            SecretError::ConfigurationError => SecretErrorView::ConfigurationError,
            SecretError::GenerationError(m) => SecretErrorView::GenerationError(m@),
            SecretError::IoError(m) => SecretErrorView::IoError(m@),
            SecretError::PathError(p) => SecretErrorView::PathError(p@),
            SecretError::SubprocessSpawnError(m) => SecretErrorView::SubprocessSpawnError(m@),
        }
    }
}

/// The text shown to the user for an error.
pub open spec fn message_text(e: SecretErrorView) -> Seq<char> {
    match e {
        SecretErrorView::ConfigurationError =>
            "the following required arguments were not provided:\n  --secret-name <SECRET_NAME>"@,
        SecretErrorView::GenerationError(m) => m,
        SecretErrorView::IoError(m) => m,
        SecretErrorView::PathError(p) => "Cannot extract filename from "@ + p,
        SecretErrorView::SubprocessSpawnError(m) => m,
    }
}

impl SecretError {
    /// The human-readable message of this error.
    pub fn message(&self) -> (text: String)
        ensures
            text@ == message_text(self@),
    {
        match self {
            SecretError::ConfigurationError => String::from_str(
                "the following required arguments were not provided:\n  --secret-name <SECRET_NAME>",
            ),
            SecretError::GenerationError(m) => m.clone(),
            SecretError::IoError(m) => m.clone(),
            SecretError::PathError(p) => {
                let mut text = String::from_str("Cannot extract filename from ");
                text.append(p.as_str());
                text
            },
            SecretError::SubprocessSpawnError(m) => m.clone(),
        }
    }
}

} // verus!
