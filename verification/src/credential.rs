//! The credential resolver: from the material of a credential source to the
//! fields of the secret.

use crate::base64::{base64, base64_text};
use crate::error::{SecretError, SecretErrorView};
use crate::path::{file_key, key_of};
use crate::text::optional_text;
use vstd::prelude::*;
use vstd::string::*;

verus! {

/// The section of a manifest that holds the fields.
#[derive(Clone, Copy, Debug, PartialEq, Eq, Structural)]
pub enum SectionKind {
    /// Plain text values, under `stringData`.
    Clear,
    /// Base64 values, under `data`.
    Encoded,
}

/// The `type` of a secret, which tells the cluster how to read its fields.
#[derive(Clone, Copy, Debug, PartialEq, Eq, Structural)]
pub enum SecretType {
    /// `kubernetes.io/basic-auth`
    BasicAuth,
    /// `Opaque`
    Opaque,
    /// `kubernetes.io/tls`
    Tls,
}

/// One field of a secret.
#[derive(Debug, PartialEq, Eq)]
pub struct Field {
    pub key: String,
    pub value: String,
}

impl View for Field {
    type V = (Seq<char>, Seq<char>);

    open spec fn view(&self) -> (Seq<char>, Seq<char>) {
        (self.key@, self.value@)
    }
}

/// The secret material of one credential source, resolved and ready to be
/// rendered. Each variant fixes the section, the type and the keys of the
/// manifest.
#[derive(Debug, PartialEq, Eq)]
pub enum ResolvedCredential {
    /// A user name and a password under the keys `username` and `password`.
    BasicAuth { username: String, password: String },
    /// A user name and a password under keys that the caller chose.
    CustomKeys { username_key: String, username: String, password_key: String, password: String },
    /// The base64 text of a file under the file's name.
    File { file_name: String, content: String },
    /// The base64 texts of a certificate and its key under `tls.crt` and
    /// `tls.key`.
    Tls { certificate: String, key: String },
}

/// The mathematical value of a [`ResolvedCredential`].
pub enum CredentialView {
    BasicAuth { username: Seq<char>, password: Seq<char> },
    CustomKeys {
        username_key: Seq<char>,
        username: Seq<char>,
        password_key: Seq<char>,
        password: Seq<char>,
    },
    File { file_name: Seq<char>, content: Seq<char> },
    Tls { certificate: Seq<char>, key: Seq<char> },
}

impl View for ResolvedCredential {
    type V = CredentialView;

    open spec fn view(&self) -> CredentialView {
        match self {
            ResolvedCredential::BasicAuth { username, password } => CredentialView::BasicAuth {
                username: username@,
                password: password@,
            },
            ResolvedCredential::CustomKeys { username_key, username, password_key, password } =>
                CredentialView::CustomKeys {
                    username_key: username_key@,
                    username: username@,
                    password_key: password_key@,
                    password: password@,
                },
            ResolvedCredential::File { file_name, content } => CredentialView::File {
                file_name: file_name@,
                content: content@,
            },
            ResolvedCredential::Tls { certificate, key } => CredentialView::Tls {
                certificate: certificate@,
                key: key@,
            },
        }
    }
}

impl CredentialView {
    /// The section that holds the fields: clear for a user name and
    /// password, encoded for file contents.
    pub open spec fn section(self) -> SectionKind {
        match self {
            CredentialView::BasicAuth { .. } => SectionKind::Clear,
            CredentialView::CustomKeys { .. } => SectionKind::Clear,
            CredentialView::File { .. } => SectionKind::Encoded,
            CredentialView::Tls { .. } => SectionKind::Encoded,
        }
    }

    /// The type of the secret.
    pub open spec fn secret_type(self) -> SecretType {
        match self {
            CredentialView::BasicAuth { .. } => SecretType::BasicAuth,
            CredentialView::CustomKeys { .. } => SecretType::Opaque,
            CredentialView::File { .. } => SecretType::Opaque,
            CredentialView::Tls { .. } => SecretType::Tls,
        }
    }

    /// The fields, as pairs of key and value, in the order in which they
    /// are rendered.
    pub open spec fn entries(self) -> Seq<(Seq<char>, Seq<char>)> {
        match self {
            CredentialView::BasicAuth { username, password } => seq![
                ("username"@, username),
                ("password"@, password),
            ],
            CredentialView::CustomKeys { username_key, username, password_key, password } => seq![
                (username_key, username),
                (password_key, password),
            ],
            CredentialView::File { file_name, content } => seq![(file_name, content)],
            CredentialView::Tls { certificate, key } => seq![
                ("tls.crt"@, certificate),
                ("tls.key"@, key),
            ],
        }
    }

    /// Whether the keys are rendered between double quotes: those that are
    /// file names are.
    pub open spec fn quotes_keys(self) -> bool {
        self is File
    }
}

/// The views of a sequence of fields.
pub open spec fn field_views(fields: Seq<Field>) -> Seq<(Seq<char>, Seq<char>)> {
    fields.map_values(|f: Field| f@)
}

impl ResolvedCredential {
    pub fn section_kind(&self) -> (kind: SectionKind)
        ensures
            kind == self@.section(),
    {
        match self {
            ResolvedCredential::BasicAuth { .. } => SectionKind::Clear,
            ResolvedCredential::CustomKeys { .. } => SectionKind::Clear,
            ResolvedCredential::File { .. } => SectionKind::Encoded,
            ResolvedCredential::Tls { .. } => SectionKind::Encoded,
        }
    }

    pub fn secret_type(&self) -> (secret_type: SecretType)
        ensures
            secret_type == self@.secret_type(),
    {
        match self {
            ResolvedCredential::BasicAuth { .. } => SecretType::BasicAuth,
            ResolvedCredential::CustomKeys { .. } => SecretType::Opaque,
            ResolvedCredential::File { .. } => SecretType::Opaque,
            ResolvedCredential::Tls { .. } => SecretType::Tls,
        }
    }

    pub fn quotes_keys(&self) -> (quoted: bool)
        ensures
            quoted == self@.quotes_keys(),
    {
        match self {
            ResolvedCredential::File { .. } => true,
            _ => false,
        }
    }

    /// The fields in the order in which they are rendered.
    pub fn fields(&self) -> (fields: Vec<Field>)
        ensures
            field_views(fields@) == self@.entries(),
    {
        let mut fields: Vec<Field> = Vec::new();
        match self {
            ResolvedCredential::BasicAuth { username, password } => {
                fields.push(Field { key: String::from_str("username"), value: username.clone() });
                fields.push(Field { key: String::from_str("password"), value: password.clone() });
            },
            ResolvedCredential::CustomKeys { username_key, username, password_key, password } => {
                fields.push(Field { key: username_key.clone(), value: username.clone() });
                fields.push(Field { key: password_key.clone(), value: password.clone() });
            },
            ResolvedCredential::File { file_name, content } => {
                fields.push(Field { key: file_name.clone(), value: content.clone() });
            },
            ResolvedCredential::Tls { certificate, key } => {
                fields.push(Field { key: String::from_str("tls.crt"), value: certificate.clone() });
                fields.push(Field { key: String::from_str("tls.key"), value: key.clone() });
            },
        }
        assert(field_views(fields@) =~= self@.entries());
        fields
    }
}

/// The key under which a user name or a password is stored: the caller's
/// key if there is one, else the standard one.
pub open spec fn chosen_key(custom: Option<Seq<char>>, standard: Seq<char>) -> Seq<char> {
    match custom {
        Some(key) => key,
        None => standard,
    }
}

/// The credential of a user name and a password: under the standard keys
/// as basic authentication if no key is given, else as opaque fields under
/// the keys given, the standard key standing in for a missing one.
pub open spec fn userpass_credential(
    username: Seq<char>,
    password: Seq<char>,
    custom_username_key: Option<Seq<char>>,
    custom_password_key: Option<Seq<char>>,
) -> CredentialView {
    if custom_username_key is None && custom_password_key is None {
        CredentialView::BasicAuth { username, password }
    } else {
        CredentialView::CustomKeys {
            username_key: chosen_key(custom_username_key, "username"@),
            username,
            password_key: chosen_key(custom_password_key, "password"@),
            password,
        }
    }
}

/// Binds a user name and a resolved password under their keys.
pub fn resolve_userpass(
    username: String,
    password: String,
    custom_username_key: Option<String>,
    custom_password_key: Option<String>,
) -> (credential: ResolvedCredential)
    ensures
        credential@ == userpass_credential(
            username@,
            password@,
            optional_text(custom_username_key),
            optional_text(custom_password_key),
        ),
{
    match (custom_username_key, custom_password_key) {
        (None, None) => ResolvedCredential::BasicAuth { username, password },
        (Some(username_key), None) => ResolvedCredential::CustomKeys {
            username_key,
            username,
            password_key: String::from_str("password"),
            password,
        },
        (None, Some(password_key)) => ResolvedCredential::CustomKeys {
            username_key: String::from_str("username"),
            username,
            password_key,
            password,
        },
        (Some(username_key), Some(password_key)) => ResolvedCredential::CustomKeys {
            username_key,
            username,
            password_key,
            password,
        },
    }
}

/// The credential of a file whose name is known: `file_name` is the key and
/// `read` is what reading the file gave, its whole contents or the reason of
/// the failure.
///
/// Fails with the [`SecretError::IoError`] of a failed read; otherwise the
/// field holds the base64 text of the contents.
pub fn file_credential(file_name: String, read: &Result<Vec<u8>, String>) -> (result: Result<
    ResolvedCredential,
    SecretError,
>)
    ensures
        match *read {
            Ok(bytes) => result matches Ok(credential) && credential@ == (CredentialView::File {
                file_name: file_name@,
                content: base64_text(bytes@),
            }),
            Err(reason) => result matches Err(e) && e@ == SecretErrorView::IoError(reason@),
        },
{
    match base64(read) {
        Ok(content) => Ok(ResolvedCredential::File { file_name, content }),
        Err(e) => Err(e),
    }
}

/// The credential of the file at `path`, from what reading the file gave.
///
/// A path without a final component fails with a [`SecretError::PathError`]
/// that carries the path, whatever the read gave. With one, a failed read
/// fails with its [`SecretError::IoError`], and otherwise the one field holds
/// the base64 text of the contents under the file's name.
pub fn encode_file(path: &str, read: &Result<Vec<u8>, String>) -> (result: Result<
    ResolvedCredential,
    SecretError,
>)
    ensures
        match key_of(path@) {
            Some(name) => match *read {
                Ok(bytes) => result matches Ok(credential) && credential@ == (
                CredentialView::File { file_name: name, content: base64_text(bytes@) }),
                Err(reason) => result matches Err(e) && e@ == SecretErrorView::IoError(reason@),
            },
            None => result matches Err(e) && e@ == SecretErrorView::PathError(path@),
        },
{
    match file_key(path) {
        Ok(file_name) => file_credential(file_name, read),
        Err(e) => Err(e),
    }
}

/// The credential of a certificate and its key, from what reading the two
/// files gave.
///
/// Fails with the [`SecretError::IoError`] of the first failed read, the
/// certificate's before the key's; otherwise the fields hold the base64
/// texts of the two files.
pub fn encode_tls_pair(
    certificate_read: &Result<Vec<u8>, String>,
    key_read: &Result<Vec<u8>, String>,
) -> (result: Result<ResolvedCredential, SecretError>)
    ensures
        match (*certificate_read, *key_read) {
            (Ok(certificate), Ok(key)) => result matches Ok(credential) && credential@ == (
            CredentialView::Tls {
                certificate: base64_text(certificate@),
                key: base64_text(key@),
            }),
            (Ok(_), Err(reason)) => result matches Err(e) && e@ == SecretErrorView::IoError(
                reason@,
            ),
            (Err(reason), _) => result matches Err(e) && e@ == SecretErrorView::IoError(reason@),
        },
{
    match base64(certificate_read) {
        Ok(certificate) => match base64(key_read) {
            Ok(key) => Ok(ResolvedCredential::Tls { certificate, key }),
            Err(e) => Err(e),
        },
        Err(e) => Err(e),
    }
}

} // verus!
