use newsletter::domain::{NewSubscriber, SubscriberEmail, SubscriberName, ValidationError};

fn name_error(raw: &str) -> Option<ValidationError> {
    SubscriberName::parse(raw.to_string()).err()
}

fn email_error(raw: &str) -> Option<ValidationError> {
    SubscriberEmail::parse(raw.to_string()).err()
}

#[test]
fn a_valid_name_is_kept_as_given() {
    let name = SubscriberName::parse("Ursula Le Guin".to_string()).unwrap();
    assert_eq!(name.as_str(), "Ursula Le Guin");
}

#[test]
fn an_empty_name_is_rejected() {
    assert_eq!(name_error(""), Some(ValidationError::EmptyName));
}

#[test]
fn a_whitespace_only_name_is_rejected() {
    assert_eq!(name_error(" \t\n"), Some(ValidationError::EmptyName));
    assert_eq!(name_error("\u{3000}\u{a0}"), Some(ValidationError::EmptyName));
}

#[test]
fn a_name_of_256_graphemes_is_accepted() {
    assert_eq!(name_error(&"ё".repeat(256)), None);
}

#[test]
fn a_name_longer_than_256_graphemes_is_rejected() {
    assert_eq!(name_error(&"a".repeat(257)), Some(ValidationError::NameTooLong));
}

#[test]
fn name_length_counts_graphemes_not_characters() {
    // Each "e" with a combining acute accent is two characters but one grapheme.
    let name = "e\u{301}".repeat(256);
    assert_eq!(name.chars().count(), 512);
    assert_eq!(name_error(&name), None);
    assert_eq!(name_error(&format!("{}e", name)), Some(ValidationError::NameTooLong));
}

#[test]
fn names_with_forbidden_characters_are_rejected() {
    for c in ['/', '(', ')', '"', '<', '>', '\\', '{', '}'] {
        assert_eq!(
            name_error(&format!("Jane{}", c)),
            Some(ValidationError::ForbiddenNameCharacter)
        );
    }
}

#[test]
fn blank_name_rule_comes_before_length_rule() {
    assert_eq!(name_error(&" ".repeat(300)), Some(ValidationError::EmptyName));
    assert_eq!(name_error(&"<".repeat(300)), Some(ValidationError::NameTooLong));
}

#[test]
fn a_valid_email_is_kept_as_given() {
    let email = SubscriberEmail::parse("ursula@domain.com".to_string()).unwrap();
    assert_eq!(email.as_str(), "ursula@domain.com");
    assert_eq!(email_error("jane_doe@mail.com"), None);
    assert_eq!(email_error("jane@mail"), None);
}

#[test]
fn an_empty_email_is_rejected() {
    assert_eq!(email_error(""), Some(ValidationError::EmptyEmail));
}

#[test]
fn malformed_emails_are_rejected() {
    for raw in [
        "not-an-email",
        "ursuladomain.com",
        "@domain.com",
        "ursula@",
        "a@b@c.com",
        "jane doe@mail.com",
        "jane@.mail.com",
        "jane@mail.com.",
        "@",
    ] {
        assert_eq!(email_error(raw), Some(ValidationError::InvalidEmail), "{}", raw);
    }
}

#[test]
fn new_subscriber_checks_the_email_first() {
    let r = NewSubscriber::try_from("not-an-email".to_string(), "".to_string());
    assert_eq!(r.err(), Some(ValidationError::InvalidEmail));
    let r = NewSubscriber::try_from("jane@mail.com".to_string(), "".to_string());
    assert_eq!(r.err(), Some(ValidationError::EmptyName));
    let s = NewSubscriber::try_from("jane@mail.com".to_string(), "Jane Doe".to_string()).unwrap();
    assert_eq!(s.email.as_str(), "jane@mail.com");
    assert_eq!(s.name.as_str(), "Jane Doe");
}

#[test]
fn validation_errors_describe_themselves() {
    assert_eq!(ValidationError::EmptyName.describe(), "the subscriber name is empty");
    assert_eq!(
        ValidationError::InvalidEmail.describe(),
        "the subscriber email is not a valid address"
    );
}
