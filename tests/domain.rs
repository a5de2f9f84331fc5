use zero2prod::domain::{FormData, NewSubscriber, SubscriberEmail, SubscriberName, ValidationError};

#[test]
fn a_256_character_name_is_valid() {
    let name = "a".repeat(256);
    assert!(SubscriberName::parse(name).is_ok());
}

#[test]
fn a_name_longer_than_256_characters_is_rejected() {
    let name = "a".repeat(257);
    assert_eq!(SubscriberName::parse(name).unwrap_err(), ValidationError::TooLong);
}

#[test]
fn a_name_of_256_multibyte_characters_is_valid() {
    let name = "ë".repeat(256);
    assert!(SubscriberName::parse(name).is_ok());
}

#[test]
fn whitespace_only_names_are_rejected() {
    assert_eq!(SubscriberName::parse(" \t\n".to_string()).unwrap_err(), ValidationError::Empty);
    assert_eq!(SubscriberName::parse("\u{3000}".to_string()).unwrap_err(), ValidationError::Empty);
}

#[test]
fn empty_name_is_rejected() {
    assert_eq!(SubscriberName::parse("".to_string()).unwrap_err(), ValidationError::Empty);
}

#[test]
fn names_containing_an_invalid_character_are_rejected() {
    for c in ['/', '(', ')', '"', '<', '>', '\\', '{', '}', '\u{7}', '\u{7f}', '\u{9f}'] {
        let name = format!("ursula{}", c);
        assert_eq!(
            SubscriberName::parse(name).unwrap_err(),
            ValidationError::ForbiddenCharacter,
            "{:?}",
            c
        );
    }
}

#[test]
fn a_valid_name_is_parsed_successfully() {
    let name = SubscriberName::parse("Ursula Le Guin".to_string()).unwrap();
    assert_eq!(name.as_str(), "Ursula Le Guin");
}

#[test]
fn a_valid_email_is_parsed_successfully() {
    let email = SubscriberEmail::parse("ursula@domain.com".to_string()).unwrap();
    assert_eq!(email.as_str(), "ursula@domain.com");
}

#[test]
fn malformed_emails_are_rejected() {
    for raw in [
        "",
        "ursuladomain.com",
        "@domain.com",
        "ursula@domaincom",
        "ursula.le@domaincom",
        "ursula@@domain.com",
        "ursula@domain@x.com",
    ] {
        assert_eq!(
            SubscriberEmail::parse(raw.to_string()).unwrap_err(),
            ValidationError::Malformed,
            "{}",
            raw
        );
    }
}

#[test]
fn a_form_with_a_bad_name_reports_the_name() {
    let form = FormData::new("not an email".to_string(), " ".to_string());
    assert_eq!(NewSubscriber::try_from(form).unwrap_err(), ValidationError::Empty);
}

#[test]
fn a_valid_form_keeps_both_fields() {
    let form = FormData::new("khar@gmail.com".to_string(), "le guin".to_string());
    let s = NewSubscriber::try_from(form).unwrap();
    assert_eq!(s.email.as_str(), "khar@gmail.com");
    assert_eq!(s.name.as_str(), "le guin");
}
