use zero2prod::domain::subscriber_email::SubscriberEmail;

#[test]
fn empty_string_is_rejected() {
    let email = "".to_string();
    assert!(SubscriberEmail::parse(email).is_err());
}

#[test]
fn email_missing_at_symbol_is_rejected() {
    let email = "ursuladomain.com".to_string();
    assert!(SubscriberEmail::parse(email).is_err());
}

#[test]
fn email_missing_subject_is_rejected() {
    let email = "@domain.com".to_string();
    assert!(SubscriberEmail::parse(email).is_err());
}

#[test]
fn valid_email_is_accepted_unchanged() {
    let email = SubscriberEmail::parse("ursula@domain.com".to_string()).unwrap();
    assert_eq!(email.as_email_string(), "ursula@domain.com");
}

#[test]
fn email_with_two_at_symbols_is_rejected() {
    assert!(SubscriberEmail::parse("a@b@domain.com".to_string()).is_err());
}

#[test]
fn local_part_longer_than_64_characters_is_rejected() {
    let email = format!("{}@domain.com", "a".repeat(65));
    assert!(SubscriberEmail::parse(email).is_err());
    let email = format!("{}@domain.com", "a".repeat(64));
    assert!(SubscriberEmail::parse(email).is_ok());
}

#[test]
fn rejection_message_names_the_address() {
    let err = SubscriberEmail::parse("ursuladomain.com".to_string()).err().unwrap();
    assert_eq!(err, "ursuladomain.com is not a valid subscriber email.");
}
