use newsletter::token::{generate_token, TOKEN_LENGTH};

#[test]
fn tokens_are_25_alphanumeric_characters() {
    let t = generate_token();
    assert_eq!(TOKEN_LENGTH, 25);
    assert_eq!(t.chars().count(), 25);
    assert!(t.chars().all(|c| c.is_ascii_alphanumeric()));
}

#[test]
fn two_tokens_differ() {
    assert_ne!(generate_token(), generate_token());
}
