use domain::value_objects::error::ValidationError;
use domain::value_objects::payer::name::Name;

#[test]
fn should_create_name_when_valid() {
    let name = Name::new("John Doe").unwrap();

    assert_eq!(name.as_str(), "John Doe");
}

#[test]
fn should_trim_spaces_when_creating_name() {
    let name = Name::new("  John Doe  ").unwrap();

    assert_eq!(name.as_str(), "John Doe");
}

#[test]
fn should_accept_name_with_minimum_length() {
    let name = Name::new("Ana").unwrap();

    assert_eq!(name.as_str(), "Ana");
}

#[test]
fn should_accept_name_with_maximum_length() {
    let value = "a".repeat(120);

    let name = Name::new(&value).unwrap();

    assert_eq!(name.as_str(), value);
}

#[test]
fn should_accept_name_with_hyphen() {
    let name = Name::new("Anne-Marie").unwrap();

    assert_eq!(name.as_str(), "Anne-Marie");
}

#[test]
fn should_accept_name_with_apostrophe() {
    let name = Name::new("O'Connor").unwrap();

    assert_eq!(name.as_str(), "O'Connor");
}

#[test]
fn should_accept_name_with_unicode_letters() {
    let name = Name::new("José Ávila").unwrap();

    assert_eq!(name.as_str(), "José Ávila");
}

#[test]
fn should_reject_empty_name() {
    let result = Name::new("");

    assert!(matches!(result, Err(ValidationError::InvalidName)));
}

#[test]
fn should_reject_name_with_only_spaces() {
    let result = Name::new("      ");

    assert!(matches!(result, Err(ValidationError::InvalidName)));
}

#[test]
fn should_reject_name_shorter_than_minimum_length() {
    let result = Name::new("Al");

    assert!(matches!(result, Err(ValidationError::InvalidName)));
}

#[test]
fn should_reject_name_longer_than_maximum_length() {
    let value = "a".repeat(121);

    let result = Name::new(&value);

    assert!(matches!(result, Err(ValidationError::InvalidName)));
}

#[test]
fn should_reject_name_starting_with_hyphen() {
    let result = Name::new("-John");

    assert!(matches!(result, Err(ValidationError::InvalidName)));
}

#[test]
fn should_reject_name_ending_with_hyphen() {
    let result = Name::new("John-");

    assert!(matches!(result, Err(ValidationError::InvalidName)));
}

#[test]
fn should_reject_name_starting_with_apostrophe() {
    let result = Name::new("'John");

    assert!(matches!(result, Err(ValidationError::InvalidName)));
}

#[test]
fn should_reject_name_ending_with_apostrophe() {
    let result = Name::new("John'");

    assert!(matches!(result, Err(ValidationError::InvalidName)));
}

#[test]
fn should_reject_name_with_double_spaces() {
    let result = Name::new("John  Doe");

    assert!(matches!(result, Err(ValidationError::InvalidName)));
}

#[test]
fn should_reject_name_with_double_hyphen() {
    let result = Name::new("John--Doe");

    assert!(matches!(result, Err(ValidationError::InvalidName)));
}

#[test]
fn should_reject_name_with_double_apostrophe() {
    let result = Name::new("O''Connor");

    assert!(matches!(result, Err(ValidationError::InvalidName)));
}

#[test]
fn should_reject_name_with_space_before_hyphen() {
    let result = Name::new("John -Doe");

    assert!(matches!(result, Err(ValidationError::InvalidName)));
}

#[test]
fn should_reject_name_with_space_after_hyphen() {
    let result = Name::new("John- Doe");

    assert!(matches!(result, Err(ValidationError::InvalidName)));
}

#[test]
fn should_reject_name_with_space_before_apostrophe() {
    let result = Name::new("John 'Doe");

    assert!(matches!(result, Err(ValidationError::InvalidName)));
}

#[test]
fn should_reject_name_with_space_after_apostrophe() {
    let result = Name::new("John' Doe");

    assert!(matches!(result, Err(ValidationError::InvalidName)));
}

#[test]
fn should_reject_name_with_numbers() {
    let result = Name::new("John123");

    assert!(matches!(result, Err(ValidationError::InvalidName)));
}

#[test]
fn should_reject_name_with_symbols() {
    let result = Name::new("John@Doe");

    assert!(matches!(result, Err(ValidationError::InvalidName)));
}

#[test]
fn should_reject_name_without_letters() {
    let result = Name::new("---");

    assert!(matches!(result, Err(ValidationError::InvalidName)));
}

#[test]
fn rejects_digits_and_punctuation_in_names() {
    assert_eq!(Name::new("John123").err(), Some(ValidationError::InvalidName));
    assert_eq!(Name::new("John@Doe").err(), Some(ValidationError::InvalidName));
}
