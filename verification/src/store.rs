//! The rows of the two tables, `subscriptions` and `subscription_tokens`,
//! and the functions that make them.

use crate::domain::NewSubscriber;
use vstd::prelude::*;
use vstd::string::*;

verus! {

/// Whether a subscriber has proved control of the email address.
#[derive(Clone, Copy, Debug, PartialEq, Eq, Structural)]
pub enum SubscriptionStatus {
    /// The address is not verified yet.
    PendingConfirmation,
    /// The confirmation link was followed.
    Confirmed,
}

/// The text that stands for `status` in the column `status`.
pub open spec fn status_text(status: SubscriptionStatus) -> Seq<char> {
    match status {
        SubscriptionStatus::PendingConfirmation => "pending_confirmation"@,
        SubscriptionStatus::Confirmed => "confirmed"@,
    }
}

impl SubscriptionStatus {
    /// The text that stands for this status in the column `status`.
    pub fn as_str(&self) -> (text: &'static str)
        ensures
            text@ == status_text(*self),
    {
        match self {
            SubscriptionStatus::PendingConfirmation => "pending_confirmation",
            SubscriptionStatus::Confirmed => "confirmed",
        }
    }
}

/// A row of the table `subscriptions`. The identifier is a UUID, held as
/// its 128 bits; `subscribed_at` counts microseconds since the Unix epoch.
#[derive(Debug, PartialEq, Eq)]
pub struct SubscriberRow {
    pub id: u128,
    pub email: String,
    pub name: String,
    pub subscribed_at: i64,
    pub status: SubscriptionStatus,
}

/// What a [`SubscriberRow`] holds, as plain values.
pub ghost struct SubscriberRowView {
    pub id: u128,
    pub email: Seq<char>,
    pub name: Seq<char>,
    pub subscribed_at: i64,
    pub status: SubscriptionStatus,
}

impl View for SubscriberRow {
    type V = SubscriberRowView;

    open spec fn view(&self) -> SubscriberRowView {
        SubscriberRowView {
            id: self.id,
            email: self.email@,
            name: self.name@,
            subscribed_at: self.subscribed_at,
            status: self.status,
        }
    }
}

/// A row of the table `subscription_tokens`: the token and the subscriber
/// that it confirms.
#[derive(Debug, PartialEq, Eq)]
pub struct TokenRow {
    pub subscription_token: String,
    pub subscriber_id: u128,
}

/// What a [`TokenRow`] holds, as plain values.
pub ghost struct TokenRowView {
    pub subscription_token: Seq<char>,
    pub subscriber_id: u128,
}

impl View for TokenRow {
    type V = TokenRowView;

    open spec fn view(&self) -> TokenRowView {
        TokenRowView {
            subscription_token: self.subscription_token@,
            subscriber_id: self.subscriber_id,
        }
    }
}

/// `id` carries the marks of a random UUID: version 4 in bits 76 to 79 and
/// the variant `10` in bits 62 and 63.
pub open spec fn is_random_uuid(id: u128) -> bool {
    &&& (id >> 76) & 0xf == 4
    &&& (id >> 62) & 0x3 == 2
}

/// The row under which `subscriber` is first stored: pending confirmation.
pub open spec fn pending_row(
    id: u128,
    subscriber: crate::domain::NewSubscriberView,
    subscribed_at: i64,
) -> SubscriberRowView {
    SubscriberRowView {
        id,
        email: subscriber.email,
        name: subscriber.name,
        subscribed_at,
        status: SubscriptionStatus::PendingConfirmation,
    }
}

/// `Uuid::new_v4` makes a random UUID and `Uuid::as_u128` gives its 128
/// bits, the first byte highest. The version and variant bits are fixed; the
/// other 122 bits are left open.
#[verifier::external_body]
fn random_uuid() -> (id: u128)
    ensures
        is_random_uuid(id),
{
    uuid::Uuid::new_v4().as_u128()
}

/// `Utc::now` reads the clock and `DateTime::timestamp_micros` counts the
/// microseconds since the Unix epoch. Nothing is claimed of the result.
#[verifier::external_body]
fn now_micros() -> (micros: i64) {
    chrono::Utc::now().timestamp_micros()
}

impl SubscriberRow {
    /// The row under which `subscriber` is first stored, with the given
    /// identifier and time of subscription.
    pub fn pending(id: u128, subscriber: &NewSubscriber, subscribed_at: i64) -> (row: SubscriberRow)
        ensures
            row@ == pending_row(id, subscriber@, subscribed_at),
    {
        SubscriberRow {
            id,
            email: String::from_str(subscriber.email.as_ref()),
            name: String::from_str(subscriber.name.as_ref()),
            subscribed_at,
            status: SubscriptionStatus::PendingConfirmation,
        }
    }
}

/// The row to insert for `new_subscriber`: a fresh random identifier, the
/// current time, and the status "pending confirmation".
pub fn insert_subscriber(new_subscriber: &NewSubscriber) -> (row: SubscriberRow)
    ensures
        is_random_uuid(row.id),
        row@ == pending_row(row.id, new_subscriber@, row.subscribed_at),
{
    let id = random_uuid();
    let now = now_micros();
    SubscriberRow::pending(id, new_subscriber, now)
}

/// The row that ties `subscription_token` to the subscriber `subscriber_id`.
pub fn store_token(subscriber_id: u128, subscription_token: &str) -> (row: TokenRow)
    ensures
        row@ == (TokenRowView { subscription_token: subscription_token@, subscriber_id }),
{
    TokenRow { subscription_token: String::from_str(subscription_token), subscriber_id }
}

} // verus!
