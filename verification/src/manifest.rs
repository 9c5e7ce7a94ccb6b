//! The manifest synthesizer: from a resolved credential and its placement
//! to the text of the `Secret` manifest.

use crate::credential::{
    field_views, CredentialView, Field, ResolvedCredential, SecretType, SectionKind,
};
use crate::error::{SecretError, SecretErrorView};
use vstd::prelude::*;
use vstd::string::*;

verus! {

/// The namespace of a secret whose configuration names none.
pub open spec fn default_namespace() -> Seq<char> {
    "default"@
}

/// Where a secret is placed: its name, which is never empty, and its
/// namespace.
#[derive(Debug, PartialEq, Eq)]
pub struct PlacementParams {
    name: String,
    namespace: String,
}

/// The namespace that a configuration asks for: the one it names, else
/// `default`.
pub open spec fn chosen_namespace(secret_namespace: Option<String>) -> Seq<char> {
    match secret_namespace {
        Some(namespace) => namespace@,
        None => default_namespace(),
    }
}

/// The mathematical value of a [`PlacementParams`].
pub struct PlacementView {
    pub name: Seq<char>,
    pub namespace: Seq<char>,
}

impl View for PlacementParams {
    type V = PlacementView;

    closed spec fn view(&self) -> PlacementView {
        PlacementView { name: self.name@, namespace: self.namespace@ }
    }
}

/// Whether a configured secret name counts as given: it is there and not
/// empty.
pub open spec fn name_given(secret_name: Option<String>) -> bool {
    secret_name matches Some(name) && name@.len() > 0
}

impl PlacementParams {
    #[verifier::type_invariant]
    spec fn name_is_not_empty(self) -> bool {
        self.name@.len() > 0
    }

    /// Validates the placement of a configuration in which the secret name
    /// and the namespace may be missing.
    ///
    /// Fails with [`SecretError::ConfigurationError`] exactly when the name
    /// is missing or empty. A missing namespace is `default`.
    pub fn new(secret_name: Option<String>, secret_namespace: Option<String>) -> (result: Result<
        PlacementParams,
        SecretError,
    >)
        ensures
            name_given(secret_name) <==> result is Ok,
            result matches Err(e) ==> e@ == SecretErrorView::ConfigurationError,
            result matches Ok(placement) ==> {
                &&& placement@.name == secret_name->Some_0@
                &&& placement@.namespace == chosen_namespace(secret_namespace)
            },
    {
        match secret_name {
            Some(name) => {
                if name.as_str().unicode_len() == 0 {
                    Err(SecretError::ConfigurationError)
                } else {
                    let namespace = match secret_namespace {
                        Some(namespace) => namespace,
                        None => String::from_str("default"),
                    };
                    Ok(PlacementParams { name, namespace })
                }
            },
            None => Err(SecretError::ConfigurationError),
        }
    }

    /// The name of the secret, which is not empty.
    pub fn name(&self) -> (name: &str)
        ensures
            name@ == self@.name,
            name@.len() > 0,
    {
        proof {
            use_type_invariant(self);
        }
        self.name.as_str()
    }

    /// The namespace of the secret.
    pub fn namespace(&self) -> (namespace: &str)
        ensures
            namespace@ == self@.namespace,
    {
        self.namespace.as_str()
    }
}

/// The name of a section in a manifest.
pub open spec fn section_label(section: SectionKind) -> Seq<char> {
    match section {
        SectionKind::Clear => "stringData"@,
        SectionKind::Encoded => "data"@,
    }
}

/// The text of a secret type in a manifest.
pub open spec fn type_label(secret_type: SecretType) -> Seq<char> {
    match secret_type {
        SecretType::BasicAuth => "kubernetes.io/basic-auth"@,
        SecretType::Opaque => "Opaque"@,
        SecretType::Tls => "kubernetes.io/tls"@,
    }
}

/// The line of one field: the key, quoted or not, and the value, as they
/// are, with no character escaped.
pub open spec fn field_line(entry: (Seq<char>, Seq<char>), quoted: bool) -> Seq<char> {
    if quoted {
        "  \""@ + entry.0 + "\": "@ + entry.1 + "\n"@
    } else {
        "  "@ + entry.0 + ": "@ + entry.1 + "\n"@
    }
}

/// The lines of the fields, in their order.
pub open spec fn field_lines(entries: Seq<(Seq<char>, Seq<char>)>, quoted: bool) -> Seq<char>
    decreases entries.len(),
{
    if entries.len() == 0 {
        Seq::empty()
    } else {
        field_lines(entries.drop_last(), quoted) + field_line(entries.last(), quoted)
    }
}

/// The text of the manifest of a credential placed under `name` in
/// `namespace`: a fixed envelope around the one section that holds the
/// credential's fields.
pub open spec fn manifest_text(
    credential: CredentialView,
    name: Seq<char>,
    namespace: Seq<char>,
) -> Seq<char> {
    "\napiVersion: v1\n"@ + section_label(credential.section()) + ":\n"@ + field_lines(
        credential.entries(),
        credential.quotes_keys(),
    ) + "kind: Secret\nmetadata:\n  name: "@ + name + "\n  namespace: "@ + namespace + "\ntype: "@
        + type_label(credential.secret_type()) + "\n"@
}

/// The opening of a manifest up to the first field, as one text.
spec fn section_head(section: SectionKind) -> Seq<char> {
    match section {
        SectionKind::Clear => "\napiVersion: v1\nstringData:\n"@,
        SectionKind::Encoded => "\napiVersion: v1\ndata:\n"@,
    }
}

/// The last line of a manifest, with the newline before it, as one text.
spec fn type_tail(secret_type: SecretType) -> Seq<char> {
    match secret_type {
        SecretType::BasicAuth => "\ntype: kubernetes.io/basic-auth\n"@,
        SecretType::Opaque => "\ntype: Opaque\n"@,
        SecretType::Tls => "\ntype: kubernetes.io/tls\n"@,
    }
}

/// The opening of a manifest is the version line and the section's label.
proof fn lemma_section_head(section: SectionKind)
    ensures
        "\napiVersion: v1\n"@ + section_label(section) + ":\n"@ == section_head(section),
{
    reveal_strlit("\napiVersion: v1\n");
    reveal_strlit(":\n");
    reveal_strlit("stringData");
    reveal_strlit("data");
    reveal_strlit("\napiVersion: v1\nstringData:\n");
    reveal_strlit("\napiVersion: v1\ndata:\n");
    assert("\napiVersion: v1\n"@ + section_label(section) + ":\n"@ =~= section_head(section));
}

/// The last line of a manifest is the type's label after `type: `.
proof fn lemma_type_tail(secret_type: SecretType)
    ensures
        "\ntype: "@ + type_label(secret_type) + "\n"@ == type_tail(secret_type),
{
    reveal_strlit("\ntype: ");
    reveal_strlit("\n");
    reveal_strlit("kubernetes.io/basic-auth");
    reveal_strlit("Opaque");
    reveal_strlit("kubernetes.io/tls");
    reveal_strlit("\ntype: kubernetes.io/basic-auth\n");
    reveal_strlit("\ntype: Opaque\n");
    reveal_strlit("\ntype: kubernetes.io/tls\n");
    assert("\ntype: "@ + type_label(secret_type) + "\n"@ =~= type_tail(secret_type));
}

/// The newline that ends the last field runs into the line of the kind.
proof fn lemma_kind_after_newline()
    ensures
        "\n"@ + "kind: Secret\nmetadata:\n  name: "@ == "\nkind: Secret\nmetadata:\n  name: "@,
{
    reveal_strlit("\n");
    reveal_strlit("kind: Secret\nmetadata:\n  name: ");
    reveal_strlit("\nkind: Secret\nmetadata:\n  name: ");
    assert("\n"@ + "kind: Secret\nmetadata:\n  name: "@ =~= "\nkind: Secret\nmetadata:\n  name: "@);
}

/// The lines of two fields are the line of the first and then the line of
/// the second.
proof fn lemma_two_field_lines(
    first: (Seq<char>, Seq<char>),
    second: (Seq<char>, Seq<char>),
    quoted: bool,
)
    ensures
        field_lines(seq![first, second], quoted) == field_line(first, quoted) + field_line(
            second,
            quoted,
        ),
{
    let entries = seq![first, second];
    assert(entries.drop_last() =~= seq![first]);
    assert(entries.drop_last().drop_last() =~= Seq::empty());
    reveal_with_fuel(field_lines, 3);
    assert(field_lines(entries, quoted) =~= field_line(first, quoted) + field_line(second, quoted));
}

/// The manifest of a credential, given the lines of its fields without the
/// last newline: the opening, those lines, and the rest from the line of
/// the kind on.
proof fn lemma_envelope(
    credential: CredentialView,
    name: Seq<char>,
    namespace: Seq<char>,
    fields: Seq<char>,
)
    requires
        field_lines(credential.entries(), credential.quotes_keys()) == fields + "\n"@,
    ensures
        manifest_text(credential, name, namespace) == section_head(credential.section()) + fields
            + "\nkind: Secret\nmetadata:\n  name: "@ + name + "\n  namespace: "@ + namespace
            + type_tail(credential.secret_type()),
{
    lemma_section_head(credential.section());
    lemma_type_tail(credential.secret_type());
    lemma_kind_after_newline();
    let head = section_head(credential.section());
    let placed = head + fields + "\nkind: Secret\nmetadata:\n  name: "@ + name + "\n  namespace: "@
        + namespace;
    assert(head + (fields + "\n"@) + "kind: Secret\nmetadata:\n  name: "@ =~= head + fields + (
    "\n"@ + "kind: Secret\nmetadata:\n  name: "@));
    assert(placed + "\ntype: "@ + type_label(credential.secret_type()) + "\n"@ =~= placed + (
    "\ntype: "@ + type_label(credential.secret_type()) + "\n"@));
}

/// The manifest of a user name and a password under the standard keys.
pub proof fn lemma_basic_auth_manifest(
    username: Seq<char>,
    password: Seq<char>,
    name: Seq<char>,
    namespace: Seq<char>,
)
    ensures
        manifest_text(CredentialView::BasicAuth { username, password }, name, namespace)
            == "\napiVersion: v1\nstringData:\n  username: "@ + username + "\n  password: "@
            + password + "\nkind: Secret\nmetadata:\n  name: "@ + name + "\n  namespace: "@
            + namespace + "\ntype: kubernetes.io/basic-auth\n"@,
{
    let credential = CredentialView::BasicAuth { username, password };
    let fields = "  username: "@ + username + "\n  password: "@ + password;
    assert(field_lines(credential.entries(), false) =~= fields + "\n"@) by {
        lemma_two_field_lines(("username"@, username), ("password"@, password), false);
        reveal_strlit("  ");
        reveal_strlit("username");
        reveal_strlit("password");
        reveal_strlit(": ");
        reveal_strlit("\n");
        reveal_strlit("  username: ");
        reveal_strlit("\n  password: ");
    }
    lemma_envelope(credential, name, namespace, fields);
    assert("\napiVersion: v1\nstringData:\n"@ + fields
        =~= "\napiVersion: v1\nstringData:\n  username: "@ + username + "\n  password: "@
        + password) by {
        reveal_strlit("\napiVersion: v1\nstringData:\n");
        reveal_strlit("  username: ");
        reveal_strlit("\napiVersion: v1\nstringData:\n  username: ");
    }
}

/// The manifest of a user name and a password under keys of the caller's
/// choice.
pub proof fn lemma_custom_keys_manifest(
    username_key: Seq<char>,
    username: Seq<char>,
    password_key: Seq<char>,
    password: Seq<char>,
    name: Seq<char>,
    namespace: Seq<char>,
)
    ensures
        manifest_text(
            CredentialView::CustomKeys { username_key, username, password_key, password },
            name,
            namespace,
        ) == "\napiVersion: v1\nstringData:\n  "@ + username_key + ": "@ + username + "\n  "@
            + password_key + ": "@ + password + "\nkind: Secret\nmetadata:\n  name: "@ + name
            + "\n  namespace: "@ + namespace + "\ntype: Opaque\n"@,
{
    let credential = CredentialView::CustomKeys { username_key, username, password_key, password };
    let fields = "  "@ + username_key + ": "@ + username + "\n  "@ + password_key + ": "@ + password;
    assert(field_lines(credential.entries(), false) =~= fields + "\n"@) by {
        lemma_two_field_lines((username_key, username), (password_key, password), false);
        reveal_strlit("  ");
        reveal_strlit("\n");
        reveal_strlit("\n  ");
    }
    lemma_envelope(credential, name, namespace, fields);
    assert("\napiVersion: v1\nstringData:\n"@ + fields =~= "\napiVersion: v1\nstringData:\n  "@
        + username_key + ": "@ + username + "\n  "@ + password_key + ": "@ + password) by {
        reveal_strlit("\napiVersion: v1\nstringData:\n");
        reveal_strlit("  ");
        reveal_strlit("\napiVersion: v1\nstringData:\n  ");
    }
}

/// The manifest of a file: its base64 text under its name, between double
/// quotes.
pub proof fn lemma_file_manifest(
    file_name: Seq<char>,
    content: Seq<char>,
    name: Seq<char>,
    namespace: Seq<char>,
)
    ensures
        manifest_text(CredentialView::File { file_name, content }, name, namespace)
            == "\napiVersion: v1\ndata:\n  \""@ + file_name + "\": "@ + content
            + "\nkind: Secret\nmetadata:\n  name: "@ + name + "\n  namespace: "@ + namespace
            + "\ntype: Opaque\n"@,
{
    let credential = CredentialView::File { file_name, content };
    let fields = "  \""@ + file_name + "\": "@ + content;
    assert(field_lines(credential.entries(), true) =~= fields + "\n"@) by {
        assert(credential.entries().drop_last() =~= Seq::empty());
        reveal_with_fuel(field_lines, 2);
    }
    lemma_envelope(credential, name, namespace, fields);
    assert("\napiVersion: v1\ndata:\n"@ + fields =~= "\napiVersion: v1\ndata:\n  \""@ + file_name
        + "\": "@ + content) by {
        reveal_strlit("\napiVersion: v1\ndata:\n");
        reveal_strlit("  \"");
        reveal_strlit("\napiVersion: v1\ndata:\n  \"");
    }
}

/// The manifest of a certificate and its key.
pub proof fn lemma_tls_manifest(
    certificate: Seq<char>,
    key: Seq<char>,
    name: Seq<char>,
    namespace: Seq<char>,
)
    ensures
        manifest_text(CredentialView::Tls { certificate, key }, name, namespace)
            == "\napiVersion: v1\ndata:\n  tls.crt: "@ + certificate + "\n  tls.key: "@ + key
            + "\nkind: Secret\nmetadata:\n  name: "@ + name + "\n  namespace: "@ + namespace
            + "\ntype: kubernetes.io/tls\n"@,
{
    let credential = CredentialView::Tls { certificate, key };
    let fields = "  tls.crt: "@ + certificate + "\n  tls.key: "@ + key;
    assert(field_lines(credential.entries(), false) =~= fields + "\n"@) by {
        lemma_two_field_lines(("tls.crt"@, certificate), ("tls.key"@, key), false);
        reveal_strlit("  ");
        reveal_strlit("tls.crt");
        reveal_strlit("tls.key");
        reveal_strlit(": ");
        reveal_strlit("\n");
        reveal_strlit("  tls.crt: ");
        reveal_strlit("\n  tls.key: ");
    }
    lemma_envelope(credential, name, namespace, fields);
    assert("\napiVersion: v1\ndata:\n"@ + fields =~= "\napiVersion: v1\ndata:\n  tls.crt: "@
        + certificate + "\n  tls.key: "@ + key) by {
        reveal_strlit("\napiVersion: v1\ndata:\n");
        reveal_strlit("  tls.crt: ");
        reveal_strlit("\napiVersion: v1\ndata:\n  tls.crt: ");
    }
}

impl SectionKind {
    /// The name of the section in a manifest.
    pub fn label(&self) -> (label: &'static str)
        ensures
            label@ == section_label(*self),
    {
        match self {
            SectionKind::Clear => "stringData",
            SectionKind::Encoded => "data",
        }
    }
}

impl SecretType {
    /// The text of the type in a manifest.
    pub fn label(&self) -> (label: &'static str)
        ensures
            label@ == type_label(*self),
    {
        match self {
            SecretType::BasicAuth => "kubernetes.io/basic-auth",
            SecretType::Opaque => "Opaque",
            SecretType::Tls => "kubernetes.io/tls",
        }
    }
}

/// Appends the line of one field to `text`.
fn append_field_line(text: &mut String, field: &Field, quoted: bool)
    ensures
        final(text)@ == old(text)@ + field_line(field@, quoted),
{
    if quoted {
        text.append("  \"");
        text.append(field.key.as_str());
        text.append("\": ");
    } else {
        text.append("  ");
        text.append(field.key.as_str());
        text.append(": ");
    }
    text.append(field.value.as_str());
    text.append("\n");
    assert(text@ =~= old(text)@ + field_line(field@, quoted));
}

/// Renders the manifest of `credential` placed as `placement` says.
pub fn synthesize(credential: &ResolvedCredential, placement: &PlacementParams) -> (text: String)
    ensures
        text@ == manifest_text(credential@, placement@.name, placement@.namespace),
{
    let fields = credential.fields();
    let quoted = credential.quotes_keys();
    let mut text = String::from_str("\napiVersion: v1\n");
    text.append(credential.section_kind().label());
    text.append(":\n");
    let ghost head = text@;
    let ghost entries = credential@.entries();
    let mut i: usize = 0;
    while i < fields.len()
        invariant
            i <= fields.len(),
            field_views(fields@) == entries,
            text@ == head + field_lines(entries.take(i as int), quoted),
        decreases fields.len() - i,
    {
        append_field_line(&mut text, &fields[i], quoted);
        proof {
            let next = entries.take(i + 1);
            assert(next.drop_last() =~= entries.take(i as int));
            assert(next.last() == fields@[i as int]@);
            assert(text@ =~= head + field_lines(next, quoted));
        }
        i = i + 1;
    }
    assert(entries.take(i as int) =~= entries);
    text.append("kind: Secret\nmetadata:\n  name: ");
    text.append(placement.name());
    text.append("\n  namespace: ");
    text.append(placement.namespace());
    text.append("\ntype: ");
    text.append(credential.secret_type().label());
    text.append("\n");
    assert(text@ =~= manifest_text(credential@, placement@.name, placement@.namespace));
    text
}

} // verus!
