use newsletter::token::{generate_subscription_token, TOKEN_LENGTH};

#[test]
fn a_token_has_twenty_five_letters_and_digits() {
    assert_eq!(TOKEN_LENGTH, 25);
    for _ in 0..200 {
        let token = generate_subscription_token();
        assert_eq!(token.chars().count(), 25);
        assert!(token.chars().all(|c| c.is_ascii_alphanumeric()), "{}", token);
    }
}

#[test]
fn tokens_differ_from_call_to_call() {
    let first = generate_subscription_token();
    let second = generate_subscription_token();
    assert_ne!(first, second);
}

#[test]
fn the_characters_of_a_token_vary() {
    let token = generate_subscription_token();
    let first = token.chars().next().unwrap();
    assert!(token.chars().any(|c| c != first), "{}", token);
}
