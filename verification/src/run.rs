//! A run, from the configuration to the manifest.
//!
//! The library decides and the caller reads: [`start`] validates the
//! configuration and either finishes the run or says what must be read, and
//! the pending step takes what was read and finishes the run. Nothing is
//! asked to be read for a configuration that is refused.

use crate::base64::base64_text;
use crate::credential::{
    encode_tls_pair, file_credential, resolve_userpass, userpass_credential, CredentialView,
};
use crate::error::{SecretError, SecretErrorView};
use crate::manifest::{chosen_namespace, manifest_text, name_given, synthesize, PlacementParams};
use crate::password::{
    end_of_input, generate_password, line_secret, password_from_line, well_shaped,
    CHARACTER_CLASSES,
};
use crate::path::{file_key, key_of};
use crate::text::optional_text;
use vstd::prelude::*;

verus! {

/// The length of a generated secret when the configuration gives none.
pub const DEFAULT_SECRET_LENGTH: u8 = 16;

/// Where the password of a user comes from.
#[derive(Debug, PartialEq, Eq)]
pub enum PasswordSource {
    /// A random password of the given length.
    Generated(u8),
    /// One line of standard input.
    FromStdinLine,
    /// The given text.
    Literal(String),
}

/// The credential source of a run.
#[derive(Debug, PartialEq, Eq)]
pub enum SecretVariant {
    /// A user name and a password, under the standard keys or under keys of
    /// the caller's choice.
    UserPass {
        username: String,
        password_source: PasswordSource,
        custom_username_key: Option<String>,
        custom_password_key: Option<String>,
    },
    /// The contents of a file, under the file's name.
    File { path: String },
    /// A certificate and its key, each the contents of a file.
    Tls { cert_path: String, key_path: String },
}

/// The configuration of a run, as parsed: the secret name may still be
/// missing.
#[derive(Debug, PartialEq, Eq)]
pub struct Config {
    pub secret_name: Option<String>,
    pub secret_namespace: Option<String>,
    pub variant: SecretVariant,
}

/// A run that waits for one line of standard input.
#[derive(Debug, PartialEq, Eq)]
pub struct PendingLine {
    pub placement: PlacementParams,
    pub username: String,
    pub custom_username_key: Option<String>,
    pub custom_password_key: Option<String>,
}

/// A run that waits for the contents of the file at `path`.
#[derive(Debug, PartialEq, Eq)]
pub struct PendingFile {
    pub placement: PlacementParams,
    pub path: String,
    pub file_name: String,
}

/// A run that waits for the contents of the files at `cert_path` and
/// `key_path`.
#[derive(Debug, PartialEq, Eq)]
pub struct PendingTls {
    pub placement: PlacementParams,
    pub cert_path: String,
    pub key_path: String,
}

/// What a run does next.
#[derive(Debug, PartialEq, Eq)]
pub enum Step {
    /// The run is over, with the manifest text or with the error.
    Finished(Result<String, SecretError>),
    /// One line of standard input is to be read and supplied.
    ReadLine(PendingLine),
    /// The file is to be read and its contents supplied.
    ReadFile(PendingFile),
    /// The two files are to be read and their contents supplied.
    ReadTlsPair(PendingTls),
}

/// Whether `placement` is what `config` asks for.
pub open spec fn placed(placement: PlacementParams, config: Config) -> bool {
    &&& config.secret_name is Some
    &&& placement@.name == config.secret_name->Some_0@
    &&& placement@.namespace == chosen_namespace(config.secret_namespace)
}

/// The manifest of a user name and a password.
pub fn userpass_manifest(
    placement: &PlacementParams,
    username: String,
    password: String,
    custom_username_key: Option<String>,
    custom_password_key: Option<String>,
) -> (text: String)
    ensures
        text@ == manifest_text(
            userpass_credential(
                username@,
                password@,
                optional_text(custom_username_key),
                optional_text(custom_password_key),
            ),
            placement@.name,
            placement@.namespace,
        ),
{
    let credential = resolve_userpass(username, password, custom_username_key, custom_password_key);
    synthesize(&credential, placement)
}

/// Starts a run.
///
/// A configuration without a secret name, or with an empty one, ends the
/// run at once with [`SecretError::ConfigurationError`], whatever the
/// variant: no password is generated and nothing is asked to be read.
/// Otherwise a literal or a generated password finishes the run with its
/// manifest, a password from standard input and the file variants wait for
/// what is to be read, and a file path without a final component ends the
/// run with a [`SecretError::PathError`] before anything is read.
pub fn start(config: Config) -> (step: Step)
    ensures
        !name_given(config.secret_name) ==> (step matches Step::Finished(Err(e)) && e@
            == SecretErrorView::ConfigurationError),
        name_given(config.secret_name) ==> match config.variant {
            SecretVariant::UserPass {
                username,
                password_source,
                custom_username_key,
                custom_password_key,
            } => match password_source {
                PasswordSource::Generated(length) => if length < CHARACTER_CLASSES {
                    step matches Step::Finished(Err(e)) && e@ is GenerationError
                } else {
                    &&& step matches Step::Finished(Ok(text))
                    &&& exists|password: Seq<char>|
                        {
                            &&& well_shaped(password, length as nat)
                            &&& text@ == #[trigger] manifest_text(
                                userpass_credential(
                                    username@,
                                    password,
                                    optional_text(custom_username_key),
                                    optional_text(custom_password_key),
                                ),
                                config.secret_name->Some_0@,
                                chosen_namespace(config.secret_namespace),
                            )
                        }
                },
                PasswordSource::FromStdinLine => {
                    &&& step matches Step::ReadLine(pending)
                    &&& placed(pending.placement, config)
                    &&& pending.username@ == username@
                    &&& optional_text(pending.custom_username_key) == optional_text(
                        custom_username_key,
                    )
                    &&& optional_text(pending.custom_password_key) == optional_text(
                        custom_password_key,
                    )
                },
                PasswordSource::Literal(password) => {
                    &&& step matches Step::Finished(Ok(text))
                    &&& text@ == manifest_text(
                        userpass_credential(
                            username@,
                            password@,
                            optional_text(custom_username_key),
                            optional_text(custom_password_key),
                        ),
                        config.secret_name->Some_0@,
                        chosen_namespace(config.secret_namespace),
                    )
                },
            },
            SecretVariant::File { path } => match key_of(path@) {
                Some(name) => {
                    &&& step matches Step::ReadFile(pending)
                    &&& placed(pending.placement, config)
                    &&& pending.path@ == path@
                    &&& pending.file_name@ == name
                },
                None => step matches Step::Finished(Err(e)) && e@ == SecretErrorView::PathError(
                    path@,
                ),
            },
            SecretVariant::Tls { cert_path, key_path } => {
                &&& step matches Step::ReadTlsPair(pending)
                &&& placed(pending.placement, config)
                &&& pending.cert_path@ == cert_path@
                &&& pending.key_path@ == key_path@
            },
        },
{
    let placement = match PlacementParams::new(config.secret_name, config.secret_namespace) {
        Ok(placement) => placement,
        Err(e) => { return Step::Finished(Err(e)); },
    };
    match config.variant {
        SecretVariant::UserPass {
            username,
            password_source,
            custom_username_key,
            custom_password_key,
        } => match password_source {
            PasswordSource::Generated(length) => match generate_password(length) {
                Ok(password) => Step::Finished(
                    Ok(
                        userpass_manifest(
                            &placement,
                            username,
                            password,
                            custom_username_key,
                            custom_password_key,
                        ),
                    ),
                ),
                Err(e) => Step::Finished(Err(e)),
            },
            PasswordSource::FromStdinLine => Step::ReadLine(
                PendingLine { placement, username, custom_username_key, custom_password_key },
            ),
            PasswordSource::Literal(password) => Step::Finished(
                Ok(
                    userpass_manifest(
                        &placement,
                        username,
                        password,
                        custom_username_key,
                        custom_password_key,
                    ),
                ),
            ),
        },
        SecretVariant::File { path } => match file_key(path.as_str()) {
            Ok(file_name) => Step::ReadFile(PendingFile { placement, path, file_name }),
            Err(e) => Step::Finished(Err(e)),
        },
        SecretVariant::Tls { cert_path, key_path } => Step::ReadTlsPair(
            PendingTls { placement, cert_path, key_path },
        ),
    }
}

impl PendingLine {
    /// Finishes the run with what reading one line of standard input gave:
    /// the line, newline included, empty at the end of input, or the reason
    /// why reading failed.
    ///
    /// Fails with a [`SecretError::IoError`] on a failed read and at the end
    /// of input; otherwise the manifest holds the line, without its
    /// trailing newline, as the password.
    pub fn supply(self, read: &Result<String, String>) -> (result: Result<String, SecretError>)
        ensures
            match *read {
                Ok(line) => if line@.len() == 0 {
                    result matches Err(e) && e@ == SecretErrorView::IoError(end_of_input())
                } else {
                    result matches Ok(text) && text@ == manifest_text(
                        userpass_credential(
                            self.username@,
                            line_secret(line@),
                            optional_text(self.custom_username_key),
                            optional_text(self.custom_password_key),
                        ),
                        self.placement@.name,
                        self.placement@.namespace,
                    )
                },
                Err(reason) => result matches Err(e) && e@ == SecretErrorView::IoError(reason@),
            },
    {
        match password_from_line(read) {
            Ok(password) => Ok(
                userpass_manifest(
                    &self.placement,
                    self.username,
                    password,
                    self.custom_username_key,
                    self.custom_password_key,
                ),
            ),
            Err(e) => Err(e),
        }
    }
}

impl PendingFile {
    /// Finishes the run with what reading the file gave: its whole contents
    /// or the reason why reading failed.
    ///
    /// Fails with the [`SecretError::IoError`] of a failed read; otherwise
    /// the manifest holds the base64 text of the contents under the file's
    /// name.
    pub fn supply(self, read: &Result<Vec<u8>, String>) -> (result: Result<String, SecretError>)
        ensures
            match *read {
                Ok(bytes) => result matches Ok(text) && text@ == manifest_text(
                    CredentialView::File {
                        file_name: self.file_name@,
                        content: base64_text(bytes@),
                    },
                    self.placement@.name,
                    self.placement@.namespace,
                ),
                Err(reason) => result matches Err(e) && e@ == SecretErrorView::IoError(reason@),
            },
    {
        match file_credential(self.file_name, read) {
            Ok(credential) => Ok(synthesize(&credential, &self.placement)),
            Err(e) => Err(e),
        }
    }
}

impl PendingTls {
    /// Finishes the run with what reading the certificate and the key gave:
    /// for each the whole contents or the reason why reading failed.
    ///
    /// Fails with the [`SecretError::IoError`] of the first failed read;
    /// otherwise the manifest holds the base64 texts of the two files under
    /// `tls.crt` and `tls.key`.
    pub fn supply(
        self,
        certificate_read: &Result<Vec<u8>, String>,
        key_read: &Result<Vec<u8>, String>,
    ) -> (result: Result<String, SecretError>)
        ensures
            match (*certificate_read, *key_read) {
                (Ok(certificate), Ok(key)) => result matches Ok(text) && text@ == manifest_text(
                    CredentialView::Tls {
                        certificate: base64_text(certificate@),
                        key: base64_text(key@),
                    },
                    self.placement@.name,
                    self.placement@.namespace,
                ),
                (Ok(_), Err(reason)) => result matches Err(e) && e@ == SecretErrorView::IoError(
                    reason@,
                ),
                (Err(reason), _) => result matches Err(e) && e@ == SecretErrorView::IoError(
                    reason@,
                ),
            },
    {
        match encode_tls_pair(certificate_read, key_read) {
            Ok(credential) => Ok(synthesize(&credential, &self.placement)),
            Err(e) => Err(e),
        }
    }
}

/// What became of handing the manifest to the sealing tool.
#[derive(Debug, PartialEq, Eq)]
pub enum SinkOutcome {
    /// The whole manifest was written to the tool's input.
    Delivered,
    /// The tool could not be started.
    SpawnFailed(String),
    /// The tool's input could not be had or written to.
    WriteFailed(String),
}

/// The result of a run whose manifest was handed to the sealing tool.
pub fn conclude(outcome: SinkOutcome) -> (result: Result<(), SecretError>)
    ensures
        match outcome {
            SinkOutcome::Delivered => result is Ok,
            SinkOutcome::SpawnFailed(reason) => result matches Err(e) && e@
                == SecretErrorView::SubprocessSpawnError(reason@),
            SinkOutcome::WriteFailed(reason) => result matches Err(e) && e@
                == SecretErrorView::IoError(reason@),
        },
{
    match outcome {
        SinkOutcome::Delivered => Ok(()),
        SinkOutcome::SpawnFailed(reason) => Err(SecretError::SubprocessSpawnError(reason)),
        SinkOutcome::WriteFailed(reason) => Err(SecretError::IoError(reason)),
    }
}

} // verus!
