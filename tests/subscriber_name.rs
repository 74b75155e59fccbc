use zero2prod::domain::SubscriberName;

#[test]
fn a_256_grapheme_long_name_is_valid() {
    let name = "ë".repeat(256);
    assert!(SubscriberName::parse(name).is_ok());
}

#[test]
fn a_name_longer_than_256_graphemes_is_invalid() {
    let name = "ë".repeat(257);
    assert!(SubscriberName::parse(name).is_err());
}

#[test]
fn whitespace_only_name_is_rejected() {
    let name = "  ".to_string();
    assert!(SubscriberName::parse(name).is_err());
}

#[test]
fn invalid_char_name_is_rejected() {
    let name = "/()\"<>\\/{}".to_string();
    assert!(SubscriberName::parse(name).is_err());
}

#[test]
fn valid_name_is_parsed_successfully() {
    let name = "Ursula Le Guin".to_string();
    assert!(SubscriberName::parse(name).is_ok());
}

#[test]
fn empty_name_is_rejected() {
    assert!(SubscriberName::parse(String::new()).is_err());
}

#[test]
fn tabs_and_newlines_alone_are_rejected() {
    assert!(SubscriberName::parse("\t\n \u{a0}\u{3000}".to_string()).is_err());
}

#[test]
fn combining_sequences_count_once_towards_the_length() {
    // 256 clusters of two code points each: 512 characters, 256 graphemes.
    let name = "e\u{301}".repeat(256);
    assert_eq!(name.chars().count(), 512);
    assert!(SubscriberName::parse(name).is_ok());
    let longer = "e\u{301}".repeat(257);
    assert!(SubscriberName::parse(longer).is_err());
}

#[test]
fn each_forbidden_character_alone_is_enough_to_reject() {
    for c in ['/', '(', ')', '"', '<', '>', '\\', '{', '}'] {
        let name = format!("Ursula {} Le Guin", c);
        assert!(SubscriberName::parse(name).is_err());
    }
}

#[test]
fn parsed_name_keeps_the_untrimmed_text() {
    let name = SubscriberName::parse("  Ursula Le Guin ".to_string()).unwrap();
    assert_eq!(name.as_str(), "  Ursula Le Guin ");
    assert_eq!(AsRef::<str>::as_ref(&name), "  Ursula Le Guin ");
}

#[test]
fn invalid_name_message_quotes_the_input() {
    let err = SubscriberName::parse("a{b".to_string()).unwrap_err();
    assert_eq!(err, "a{b is not a valid subscriber name");
}
