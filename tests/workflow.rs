use newsletter::message::{confirmation_email, confirmation_link};
use newsletter::store::{StorageError, SubscriptionStatus, SubscriptionStore};
use newsletter::workflow::{
    confirm, register, register_with, registration_outcome, Outcome, Registration,
};
use newsletter::domain::ValidationError;

const BASE: &str = "http://127.0.0.1:8000";

fn accepted(r: &Registration) -> (u128, String) {
    match r {
        Registration::Accepted { subscriber_id, token, .. } => (*subscriber_id, token.clone()),
        _ => panic!("registration was not accepted"),
    }
}

#[test]
fn outcomes_map_to_status_codes() {
    assert_eq!(Outcome::Success.status_code(), 200);
    assert_eq!(Outcome::BadRequest.status_code(), 400);
    assert_eq!(Outcome::InternalError.status_code(), 500);
}

#[test]
fn confirmation_link_and_email_hold_the_token() {
    let link = confirmation_link(BASE, "abc");
    assert_eq!(link, "http://127.0.0.1:8000/subscriptions/confirm?subscription_token=abc");
    let m = confirmation_email("jane@mail.com", &link);
    assert_eq!(m.recipient, "jane@mail.com");
    assert_eq!(m.subject, "Welcome!");
    assert_eq!(
        m.text_body,
        format!("Welcome to our newsletter!\nVisit {} to confirm your subscription.", link)
    );
    assert_eq!(
        m.html_body,
        format!(
            "Welcome to our newsletter!<br /> Click <a href=\"{}\">here</a> to confirm your subscription.",
            link
        )
    );
}

#[test]
fn registering_then_following_the_link_confirms_the_subscriber() {
    let mut store = SubscriptionStore::new();
    let r = register(&mut store, "jane@mail.com".to_string(), "Jane Doe".to_string(), BASE);
    assert_eq!(registration_outcome(&r, true), Outcome::Success);
    let (id, token) = accepted(&r);
    assert_eq!(store.subscription_count(), 1);
    let row = store.subscription(0);
    assert_eq!(row.id, id);
    assert_eq!(row.email, "jane@mail.com");
    assert_eq!(row.name, "Jane Doe");
    assert_eq!(row.status.as_str(), "pending_confirmation");
    assert_eq!(store.resolve_subscriber_by_token(&token), Some(id));
    let link = match &r {
        Registration::Accepted { email, .. } => {
            assert_eq!(email.recipient, "jane@mail.com");
            assert_eq!(email.text_body.matches("http://").count(), 1);
            assert_eq!(email.html_body.matches("http://").count(), 1);
            confirmation_link(BASE, &token)
        }
        _ => unreachable!(),
    };
    let query_token = link.split("subscription_token=").nth(1).unwrap().to_string();
    assert_eq!(query_token, token);
    assert_eq!(confirm(&mut store, Some(query_token)), Outcome::Success);
    assert_eq!(store.subscription(0).status.as_str(), "confirmed");
}

#[test]
fn register_with_records_the_given_values() {
    let mut store = SubscriptionStore::new();
    let r = register_with(
        &mut store,
        "jane@mail.com".to_string(),
        "Jane Doe".to_string(),
        BASE,
        42,
        1_700_000_000,
        "tokentokentokentokentoken".to_string(),
    );
    let (id, token) = accepted(&r);
    assert_eq!(id, 42);
    assert_eq!(token, "tokentokentokentokentoken");
    assert_eq!(store.subscription(0).subscribed_at, 1_700_000_000);
    match &r {
        Registration::Accepted { email, .. } => assert!(email
            .text_body
            .contains("http://127.0.0.1:8000/subscriptions/confirm?subscription_token=tokentokentokentokentoken")),
        _ => unreachable!(),
    }
}

#[test]
fn invalid_input_is_a_bad_request_and_writes_nothing() {
    let mut store = SubscriptionStore::new();
    let r = register(&mut store, "jane@mail.com".to_string(), "".to_string(), BASE);
    assert!(matches!(r, Registration::Rejected(ValidationError::EmptyName)));
    assert_eq!(registration_outcome(&r, true).status_code(), 400);
    let r = register(&mut store, "not-an-email".to_string(), "Jane".to_string(), BASE);
    assert!(matches!(r, Registration::Rejected(ValidationError::InvalidEmail)));
    assert_eq!(registration_outcome(&r, true).status_code(), 400);
    let r = register(&mut store, "".to_string(), "Jane".to_string(), BASE);
    assert!(matches!(r, Registration::Rejected(ValidationError::EmptyEmail)));
    assert_eq!(store.subscription_count(), 0);
}

#[test]
fn a_storage_refusal_is_an_internal_error() {
    let mut store = SubscriptionStore::new();
    let first = register_with(&mut store, "a@mail.com".to_string(), "A".to_string(), BASE, 1, 0, "t".to_string());
    accepted(&first);
    let r = register_with(&mut store, "b@mail.com".to_string(), "B".to_string(), BASE, 2, 0, "t".to_string());
    assert!(matches!(r, Registration::Failed(StorageError::DuplicateToken)));
    assert_eq!(registration_outcome(&r, true), Outcome::InternalError);
    assert_eq!(store.subscription_count(), 1);
}

#[test]
fn a_failed_send_is_an_internal_error_and_keeps_the_record() {
    let mut store = SubscriptionStore::new();
    let r = register(&mut store, "jane@mail.com".to_string(), "Jane".to_string(), BASE);
    assert_eq!(registration_outcome(&r, false), Outcome::InternalError);
    assert_eq!(store.subscription(0).status, SubscriptionStatus::PendingConfirmation);
}

#[test]
fn unissued_or_missing_tokens_are_bad_requests() {
    let mut store = SubscriptionStore::new();
    let r = register(&mut store, "jane@mail.com".to_string(), "Jane".to_string(), BASE);
    accepted(&r);
    assert_eq!(confirm(&mut store, Some("nosuchtoken".to_string())), Outcome::BadRequest);
    assert_eq!(confirm(&mut store, None), Outcome::BadRequest);
    assert_eq!(store.subscription(0).status, SubscriptionStatus::PendingConfirmation);
}

#[test]
fn confirming_twice_succeeds_twice() {
    let mut store = SubscriptionStore::new();
    let r = register(&mut store, "jane@mail.com".to_string(), "Jane".to_string(), BASE);
    let (_, token) = accepted(&r);
    assert_eq!(confirm(&mut store, Some(token.clone())), Outcome::Success);
    assert_eq!(store.subscription(0).status, SubscriptionStatus::Confirmed);
    assert_eq!(confirm(&mut store, Some(token)), Outcome::Success);
    assert_eq!(store.subscription(0).status, SubscriptionStatus::Confirmed);
}

#[test]
fn re_registering_issues_a_new_token_for_the_same_subscriber() {
    let mut store = SubscriptionStore::new();
    let first = register(&mut store, "janedoe@mail.com".to_string(), "Jane Doe".to_string(), BASE);
    let second = register(&mut store, "janedoe@mail.com".to_string(), "Jane Doe".to_string(), BASE);
    let (id1, t1) = accepted(&first);
    let (id2, t2) = accepted(&second);
    assert_eq!(id1, id2);
    assert_ne!(t1, t2);
    assert_eq!(store.subscription_count(), 1);
    // Both links stay live.
    assert_eq!(store.resolve_subscriber_by_token(&t1), Some(id1));
    assert_eq!(store.resolve_subscriber_by_token(&t2), Some(id1));
    assert_eq!(confirm(&mut store, Some(t1)), Outcome::Success);
}

#[test]
fn re_registering_a_confirmed_subscriber_keeps_it_confirmed() {
    let mut store = SubscriptionStore::new();
    let first = register(&mut store, "jane@mail.com".to_string(), "Jane".to_string(), BASE);
    let (_, t1) = accepted(&first);
    confirm(&mut store, Some(t1));
    let again = register(&mut store, "jane@mail.com".to_string(), "Jane".to_string(), BASE);
    accepted(&again);
    assert_eq!(store.subscription(0).status, SubscriptionStatus::Confirmed);
}
