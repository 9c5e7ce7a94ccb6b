use secret_manifest::error::SecretError;

#[test]
fn message_of_a_missing_name() {
    assert_eq!(
        SecretError::ConfigurationError.message(),
        "the following required arguments were not provided:\n  --secret-name <SECRET_NAME>"
    );
}

#[test]
fn message_of_a_path_error_names_the_path() {
    assert_eq!(
        SecretError::PathError(String::from("/")).message(),
        "Cannot extract filename from /"
    );
}

#[test]
fn message_of_the_other_errors_is_the_reason_given() {
    assert_eq!(
        SecretError::GenerationError(String::from("The length of passwords is too short.")).message(),
        "The length of passwords is too short."
    );
    assert_eq!(SecretError::IoError(String::from("Broken pipe")).message(), "Broken pipe");
    assert_eq!(
        SecretError::SubprocessSpawnError(String::from("kubeseal: not found")).message(),
        "kubeseal: not found"
    );
}
