use newsletter::domain::{NewSubscriber, SubscriberEmail, SubscriberName};
use newsletter::store::{insert_subscriber, store_token, SubscriberRow, SubscriptionStatus};

fn alice() -> NewSubscriber {
    NewSubscriber {
        email: SubscriberEmail::parse("alice@example.com".to_string()).unwrap(),
        name: SubscriberName::parse("Alice".to_string()).unwrap(),
    }
}

#[test]
fn a_new_subscriber_is_inserted_as_pending() {
    let row = insert_subscriber(&alice());
    assert_eq!(row.email, "alice@example.com");
    assert_eq!(row.name, "Alice");
    assert_eq!(row.status, SubscriptionStatus::PendingConfirmation);
}

#[test]
fn the_identifier_is_a_random_uuid() {
    let row = insert_subscriber(&alice());
    let id = uuid::Uuid::from_u128(row.id);
    assert_eq!(id.get_version_num(), 4);
    assert_eq!(id.get_variant(), uuid::Variant::RFC4122);
    assert_eq!((row.id >> 76) & 0xf, 4);
    assert_eq!((row.id >> 62) & 0x3, 2);
}

#[test]
fn identifiers_differ_from_call_to_call() {
    let first = insert_subscriber(&alice());
    let second = insert_subscriber(&alice());
    assert_ne!(first.id, second.id);
}

#[test]
fn the_time_of_subscription_is_now() {
    let before = chrono::Utc::now().timestamp_micros();
    let row = insert_subscriber(&alice());
    let after = chrono::Utc::now().timestamp_micros();
    assert!(before <= row.subscribed_at && row.subscribed_at <= after);
}

#[test]
fn a_pending_row_holds_what_it_is_given() {
    let row = SubscriberRow::pending(7, &alice(), 1_000_000_000_000_555);
    assert_eq!(row.id, 7);
    assert_eq!(row.email, "alice@example.com");
    assert_eq!(row.name, "Alice");
    assert_eq!(row.subscribed_at, 1_000_000_000_000_555);
    assert_eq!(row.status, SubscriptionStatus::PendingConfirmation);
}

#[test]
fn a_token_row_ties_the_token_to_the_subscriber() {
    let row = store_token(42, "abcdefghijklmnopqrstuvwxy");
    assert_eq!(row.subscriber_id, 42);
    assert_eq!(row.subscription_token, "abcdefghijklmnopqrstuvwxy");
}

#[test]
fn each_status_has_its_text() {
    assert_eq!(SubscriptionStatus::PendingConfirmation.as_str(), "pending_confirmation");
    assert_eq!(SubscriptionStatus::Confirmed.as_str(), "confirmed");
}
