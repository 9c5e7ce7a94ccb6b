use secret_manifest::error::SecretError;
use secret_manifest::password::{
    generate_password, password_from_line, password_from_outcome, PasswordPolicy,
    CHARACTER_CLASSES,
};

const LOOK_ALIKES: &str = "iI1loO0\"'`|";

fn assert_well_shaped(password: &str, length: usize) {
    assert_eq!(password.chars().count(), length);
    assert!(password.chars().any(|c| c.is_ascii_digit()));
    assert!(password.chars().any(|c| c.is_ascii_lowercase()));
    assert!(password.chars().any(|c| c.is_ascii_uppercase()));
    assert!(password.chars().any(|c| c.is_ascii_punctuation()));
    for c in password.chars() {
        assert!(c.is_ascii_alphanumeric() || c.is_ascii_punctuation());
        assert!(!LOOK_ALIKES.contains(c));
        assert_ne!(c, ' ');
    }
}

#[test]
fn there_are_four_character_classes() {
    assert_eq!(CHARACTER_CLASSES, 4);
}

#[test]
fn the_standard_policy_is_strict_over_four_classes() {
    let policy = PasswordPolicy::standard(16);
    assert_eq!(policy.length, 16);
    assert!(policy.numbers);
    assert!(policy.lowercase_letters);
    assert!(policy.uppercase_letters);
    assert!(policy.symbols);
    assert!(!policy.spaces);
    assert!(policy.exclude_similar_characters);
    assert!(policy.strict);
}

#[test]
fn generated_password_of_default_length_is_well_shaped() {
    let password = generate_password(16).expect("sixteen characters are enough");
    assert_well_shaped(&password, 16);
}

#[test]
fn generated_password_of_the_least_length_is_well_shaped() {
    for _ in 0..20 {
        let password = generate_password(4).expect("four characters are enough");
        assert_well_shaped(&password, 4);
    }
}

#[test]
fn generated_password_of_the_greatest_length_is_well_shaped() {
    let password = generate_password(255).expect("255 characters are enough");
    assert_well_shaped(&password, 255);
}

#[test]
fn generated_passwords_of_every_supported_length_are_well_shaped() {
    for length in 4..=64u8 {
        let password = generate_password(length).expect("long enough");
        assert_well_shaped(&password, length as usize);
    }
}

#[test]
fn generation_fails_below_four_characters() {
    for length in 0..4u8 {
        assert!(matches!(
            generate_password(length),
            Err(SecretError::GenerationError(_))
        ));
    }
}

#[test]
fn generation_explains_its_failure() {
    assert_eq!(
        generate_password(0),
        Err(SecretError::GenerationError(String::from(
            "The length of passwords cannot be 0."
        )))
    );
    assert_eq!(
        generate_password(3),
        Err(SecretError::GenerationError(String::from(
            "The length of passwords is too short."
        )))
    );
}

#[test]
fn two_generated_passwords_differ() {
    let first = generate_password(32).expect("long enough");
    let second = generate_password(32).expect("long enough");
    assert_ne!(first, second);
}

#[test]
fn a_generator_outcome_becomes_a_result() {
    assert_eq!(
        password_from_outcome(Ok(String::from("Ab3$"))),
        Ok(String::from("Ab3$"))
    );
    assert_eq!(
        password_from_outcome(Err(String::from("too short"))),
        Err(SecretError::GenerationError(String::from("too short")))
    );
}

#[test]
fn a_line_loses_its_trailing_newline() {
    assert_eq!(
        password_from_line(&Ok(String::from("hunter2\n"))),
        Ok(String::from("hunter2"))
    );
}

#[test]
fn a_line_without_newline_is_taken_whole() {
    assert_eq!(
        password_from_line(&Ok(String::from("hunter2"))),
        Ok(String::from("hunter2"))
    );
}

#[test]
fn only_one_newline_is_stripped() {
    assert_eq!(
        password_from_line(&Ok(String::from("hunter2\n\n"))),
        Ok(String::from("hunter2\n"))
    );
    assert_eq!(
        password_from_line(&Ok(String::from("hunter2\r\n"))),
        Ok(String::from("hunter2\r"))
    );
}

#[test]
fn an_empty_line_is_an_empty_secret() {
    assert_eq!(password_from_line(&Ok(String::from("\n"))), Ok(String::new()));
}

#[test]
fn a_line_keeps_its_inner_spaces_and_non_ascii_characters() {
    assert_eq!(
        password_from_line(&Ok(String::from(" pä ss wörd \n"))),
        Ok(String::from(" pä ss wörd "))
    );
}

#[test]
fn the_end_of_input_is_an_io_error() {
    assert_eq!(
        password_from_line(&Ok(String::new())),
        Err(SecretError::IoError(String::from(
            "end of input while reading the secret"
        )))
    );
}

#[test]
fn a_failed_read_of_the_line_is_an_io_error() {
    assert_eq!(
        password_from_line(&Err(String::from("stream did not contain valid UTF-8"))),
        Err(SecretError::IoError(String::from(
            "stream did not contain valid UTF-8"
        )))
    );
}
