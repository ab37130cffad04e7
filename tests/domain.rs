use z2p::domain::{is_valid_name, FormData, NewSubscriber, SubscriberName};

#[test]
fn ordinary_name_is_accepted() {
    let name = SubscriberName::parse("le guin".to_string()).unwrap();
    assert_eq!(name.as_str(), "le guin");
}

#[test]
fn empty_name_is_rejected_with_message() {
    assert_eq!(SubscriberName::parse(String::new()).err(), Some(" is not a valid subscriber name.".to_string()));
}

#[test]
fn whitespace_only_name_is_rejected() {
    assert!(SubscriberName::parse(" \t\n".to_string()).is_err());
    assert!(SubscriberName::parse("\u{3000}\u{a0}".to_string()).is_err());
}

#[test]
fn name_of_256_graphemes_is_accepted() {
    assert!(SubscriberName::parse("a".repeat(256)).is_ok());
    // 256 graphemes of two characters each
    assert!(SubscriberName::parse("a\u{310}".repeat(256)).is_ok());
}

#[test]
fn name_longer_than_256_graphemes_is_rejected() {
    assert!(SubscriberName::parse("a".repeat(257)).is_err());
}

#[test]
fn forbidden_characters_are_rejected() {
    for c in ['/', '(', ')', '"', '<', '>', '\\', '{', '}'] {
        let name = format!("Ursula{}", c);
        assert_eq!(SubscriberName::parse(name.clone()).err(), Some(format!("{} is not a valid subscriber name.", name)));
    }
}

#[test]
fn subscription_request_becomes_new_subscriber() {
    let form = FormData { email: "ursula_le_guin@gmail.com".to_string(), name: "le guin".to_string() };
    let subscriber = NewSubscriber::try_from(form).ok().unwrap();
    assert_eq!(subscriber.email, "ursula_le_guin@gmail.com");
    assert_eq!(subscriber.name.as_str(), "le guin");
}

#[test]
fn subscription_request_with_empty_name_is_refused() {
    let form = FormData { email: "ursula_le_guin@gmail.com".to_string(), name: String::new() };
    assert_eq!(NewSubscriber::try_from(form).err(), Some(" is not a valid subscriber name.".to_string()));
}

#[test]
fn name_validity_given_its_grapheme_count() {
    assert!(is_valid_name("le guin", 7));
    assert!(is_valid_name("le guin", 256));
    assert!(!is_valid_name("le guin", 257));
    assert!(!is_valid_name("  ", 2));
    assert!(!is_valid_name("", 0));
    assert!(!is_valid_name("a{b", 3));
}
