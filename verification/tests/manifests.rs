use secret_manifest::credential::{resolve_userpass, ResolvedCredential, SecretType, SectionKind};
use secret_manifest::error::SecretError;
use secret_manifest::manifest::{synthesize, PlacementParams};

fn placement(name: &str, namespace: &str) -> PlacementParams {
    PlacementParams::new(Some(String::from(name)), Some(String::from(namespace)))
        .expect("the name is given")
}

#[test]
fn a_placement_keeps_its_name_and_namespace() {
    let placement = placement("app-cfg", "prod");
    assert_eq!(placement.name(), "app-cfg");
    assert_eq!(placement.namespace(), "prod");
}

#[test]
fn a_missing_namespace_is_default() {
    let placement = PlacementParams::new(Some(String::from("db")), None).expect("the name is given");
    assert_eq!(placement.name(), "db");
    assert_eq!(placement.namespace(), "default");
}

#[test]
fn a_missing_name_is_a_configuration_error() {
    assert_eq!(
        PlacementParams::new(None, Some(String::from("prod"))),
        Err(SecretError::ConfigurationError)
    );
    assert_eq!(PlacementParams::new(None, None), Err(SecretError::ConfigurationError));
}

#[test]
fn an_empty_name_is_a_configuration_error() {
    assert_eq!(
        PlacementParams::new(Some(String::new()), Some(String::from("prod"))),
        Err(SecretError::ConfigurationError)
    );
}

#[test]
fn section_and_type_labels() {
    assert_eq!(SectionKind::Clear.label(), "stringData");
    assert_eq!(SectionKind::Encoded.label(), "data");
    assert_eq!(SecretType::BasicAuth.label(), "kubernetes.io/basic-auth");
    assert_eq!(SecretType::Opaque.label(), "Opaque");
    assert_eq!(SecretType::Tls.label(), "kubernetes.io/tls");
}

#[test]
fn manifest_of_a_basic_auth_secret() {
    let credential = resolve_userpass(String::from("alice"), String::from("hunter2"), None, None);
    assert_eq!(
        synthesize(&credential, &placement("db-login", "default")),
        "\napiVersion: v1\nstringData:\n  username: alice\n  password: hunter2\nkind: Secret\nmetadata:\n  name: db-login\n  namespace: default\ntype: kubernetes.io/basic-auth\n"
    );
}

#[test]
fn manifest_of_a_secret_with_custom_keys() {
    let credential = resolve_userpass(
        String::from("alice"),
        String::from("hunter2"),
        Some(String::from("login")),
        Some(String::from("secret")),
    );
    assert_eq!(credential.secret_type(), SecretType::Opaque);
    assert_eq!(credential.section_kind(), SectionKind::Clear);
    assert_eq!(
        synthesize(&credential, &placement("db-login", "staging")),
        "\napiVersion: v1\nstringData:\n  login: alice\n  secret: hunter2\nkind: Secret\nmetadata:\n  name: db-login\n  namespace: staging\ntype: Opaque\n"
    );
}

#[test]
fn manifest_of_a_file_secret() {
    let credential = ResolvedCredential::File {
        file_name: String::from("config.json"),
        content: String::from("eyJhIjoxfQ=="),
    };
    assert_eq!(
        synthesize(&credential, &placement("app-cfg", "prod")),
        "\napiVersion: v1\ndata:\n  \"config.json\": eyJhIjoxfQ==\nkind: Secret\nmetadata:\n  name: app-cfg\n  namespace: prod\ntype: Opaque\n"
    );
}

#[test]
fn manifest_of_a_tls_secret() {
    let credential = ResolvedCredential::Tls {
        certificate: String::from("MIIBCg=="),
        key: String::from("LS0tLS0="),
    };
    assert_eq!(
        synthesize(&credential, &placement("site-tls", "web")),
        "\napiVersion: v1\ndata:\n  tls.crt: MIIBCg==\n  tls.key: LS0tLS0=\nkind: Secret\nmetadata:\n  name: site-tls\n  namespace: web\ntype: kubernetes.io/tls\n"
    );
}

#[test]
fn manifest_values_are_not_escaped() {
    let credential =
        resolve_userpass(String::from("a: b"), String::from("#x\"y'{z}"), None, None);
    assert_eq!(
        synthesize(&credential, &placement("n", "ns")),
        "\napiVersion: v1\nstringData:\n  username: a: b\n  password: #x\"y'{z}\nkind: Secret\nmetadata:\n  name: n\n  namespace: ns\ntype: kubernetes.io/basic-auth\n"
    );
}

#[test]
fn manifest_fields_keep_their_order() {
    let credential = resolve_userpass(
        String::from("u"),
        String::from("p"),
        Some(String::from("zzz")),
        Some(String::from("aaa")),
    );
    let text = synthesize(&credential, &placement("n", "ns"));
    let first = text.find("  zzz: u\n").expect("the user name is rendered");
    let second = text.find("  aaa: p\n").expect("the password is rendered");
    assert!(first < second);
}
