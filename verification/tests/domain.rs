use newsletter::domain::{
    char_is_forbidden_in_name, char_is_whitespace, NewSubscriber, SubscriberEmail, SubscriberName,
    ValidationError, MAX_NAME_LENGTH,
};
use newsletter::registration::FormData;

fn name_error(raw: &str) -> Option<ValidationError> {
    SubscriberName::parse(raw.to_string()).err()
}

fn email_error(raw: &str) -> Option<ValidationError> {
    SubscriberEmail::parse(raw.to_string()).err()
}

#[test]
fn a_plain_name_is_accepted() {
    let name = SubscriberName::parse("Ursula Le Guin".to_string()).unwrap();
    assert_eq!(name.as_ref(), "Ursula Le Guin");
}

#[test]
fn a_name_keeps_its_surrounding_spaces() {
    let name = SubscriberName::parse("  Ursula ".to_string()).unwrap();
    assert_eq!(name.as_ref(), "  Ursula ");
}

#[test]
fn an_empty_name_is_blank() {
    assert_eq!(name_error(""), Some(ValidationError::BlankName));
}

#[test]
fn a_name_of_white_space_is_blank() {
    assert_eq!(name_error(" "), Some(ValidationError::BlankName));
    assert_eq!(name_error(" \t\r\n"), Some(ValidationError::BlankName));
    assert_eq!(name_error("\u{a0}\u{2003}\u{3000}"), Some(ValidationError::BlankName));
}

#[test]
fn white_space_is_what_std_calls_white_space() {
    let mut code: u32 = 0;
    while code <= 0x10ffff {
        if let Some(c) = char::from_u32(code) {
            assert_eq!(char_is_whitespace(c), c.is_whitespace(), "U+{:04X}", code);
        }
        code += 1;
    }
}

#[test]
fn a_name_of_the_greatest_length_is_accepted() {
    let raw = "a".repeat(MAX_NAME_LENGTH);
    assert_eq!(MAX_NAME_LENGTH, 256);
    assert!(SubscriberName::parse(raw).is_ok());
}

#[test]
fn a_name_one_character_too_long_is_rejected() {
    let raw = "a".repeat(MAX_NAME_LENGTH + 1);
    assert_eq!(name_error(&raw), Some(ValidationError::NameTooLong));
}

#[test]
fn the_length_of_a_name_counts_characters_not_bytes() {
    let raw = "ё".repeat(MAX_NAME_LENGTH);
    assert!(raw.len() > MAX_NAME_LENGTH);
    assert!(SubscriberName::parse(raw).is_ok());
    let raw = "ё".repeat(MAX_NAME_LENGTH + 1);
    assert_eq!(name_error(&raw), Some(ValidationError::NameTooLong));
}

#[test]
fn each_forbidden_character_is_rejected_in_a_name() {
    for forbidden in ['/', '(', ')', '"', '<', '>', '\\', '{', '}'] {
        assert!(char_is_forbidden_in_name(forbidden));
        let raw = format!("Ursula{}Le Guin", forbidden);
        assert_eq!(name_error(&raw), Some(ValidationError::ForbiddenNameCharacter), "{}", raw);
    }
}

#[test]
fn other_punctuation_is_allowed_in_a_name() {
    for allowed in ['-', '\'', '.', ',', '[', ']', '@', '&'] {
        assert!(!char_is_forbidden_in_name(allowed));
        let raw = format!("Ursula{}Le Guin", allowed);
        assert!(SubscriberName::parse(raw).is_ok());
    }
}

#[test]
fn a_blank_name_is_blank_before_it_is_too_long() {
    let raw = " ".repeat(MAX_NAME_LENGTH + 1);
    assert_eq!(name_error(&raw), Some(ValidationError::BlankName));
}

#[test]
fn a_name_is_too_long_before_it_holds_a_forbidden_character() {
    let raw = "<".repeat(MAX_NAME_LENGTH + 1);
    assert_eq!(name_error(&raw), Some(ValidationError::NameTooLong));
}

#[test]
fn a_plain_email_is_accepted() {
    let email = SubscriberEmail::parse("alice@example.com".to_string()).unwrap();
    assert_eq!(email.as_ref(), "alice@example.com");
}

#[test]
fn the_smallest_email_shapes_are_accepted() {
    assert_eq!(email_error("a@b.c"), None);
    assert_eq!(email_error("a@."), None);
    assert_eq!(email_error("a@b@c.d"), None);
}

#[test]
fn an_empty_email_is_rejected() {
    assert_eq!(email_error(""), Some(ValidationError::EmptyEmail));
}

#[test]
fn an_email_without_at_sign_is_rejected() {
    assert_eq!(email_error("alice.example.com"), Some(ValidationError::MalformedEmail));
    assert_eq!(email_error("Ursula Le Guin"), Some(ValidationError::MalformedEmail));
}

#[test]
fn an_email_without_local_part_is_rejected() {
    assert_eq!(email_error("@example.com"), Some(ValidationError::MalformedEmail));
}

#[test]
fn an_email_without_dot_in_the_domain_is_rejected() {
    assert_eq!(email_error("alice@example"), Some(ValidationError::MalformedEmail));
    assert_eq!(email_error("alice.smith@example"), Some(ValidationError::MalformedEmail));
    assert_eq!(email_error("alice@"), Some(ValidationError::MalformedEmail));
}

#[test]
fn a_form_is_validated_name_first() {
    let form = FormData { name: "".to_string(), email: "".to_string() };
    assert_eq!(NewSubscriber::try_from(form).err(), Some(ValidationError::BlankName));
    let form = FormData { name: "Alice".to_string(), email: "".to_string() };
    assert_eq!(NewSubscriber::try_from(form).err(), Some(ValidationError::EmptyEmail));
}

#[test]
fn a_valid_form_gives_its_subscriber() {
    let form = FormData { name: "Alice".to_string(), email: "alice@example.com".to_string() };
    let subscriber = NewSubscriber::try_from(form).unwrap();
    assert_eq!(subscriber.name.as_ref(), "Alice");
    assert_eq!(subscriber.email.as_ref(), "alice@example.com");
}
