use newsletter::domain::SubscriberEmail;
use newsletter::email_client::{joined, delivery_reply, EmailClient};
use newsletter::workflow::Reply;
use std::time::Duration;

fn email(raw: &str) -> SubscriberEmail {
    SubscriberEmail::parse(raw.to_string()).unwrap()
}

fn email_client(base_url: &str) -> EmailClient {
    EmailClient::new(
        base_url.to_string(),
        email("newsletter@example.com"),
        "an-authorization-token".to_string(),
        Duration::from_millis(200),
    )
}

#[test]
fn send_email_sends_the_expected_request() {
    let request = email_client("http://127.0.0.1:4000").send_email(
        email("alice@example.com"),
        "A subject",
        "<p>Some content</p>",
        "Some content",
    );
    assert_eq!(request.url, "http://127.0.0.1:4000/mail/send");
    assert_eq!(request.authorization_token, "an-authorization-token");
    assert_eq!(request.timeout, Duration::from_millis(200));
    assert_eq!(request.sender, "newsletter@example.com");
    assert_eq!(request.recipient, "alice@example.com");
    assert_eq!(request.subject, "A subject");
    assert_eq!(request.html_content, "<p>Some content</p>");
    assert_eq!(request.text_content, "Some content");
}

#[test]
fn send_email_succeeds_if_the_server_returns_200() {
    let outcome = delivery_reply(Some(200));
    assert_eq!(outcome, Reply::Done);
}

#[test]
fn send_email_fails_if_the_server_returns_500() {
    let outcome = delivery_reply(Some(500));
    assert_eq!(outcome, Reply::Failed);
}

#[test]
fn send_email_times_out_if_the_server_takes_too_long() {
    let outcome = delivery_reply(None);
    assert_eq!(outcome, Reply::Failed);
}

#[test]
fn only_client_and_server_errors_fail_the_delivery() {
    for status in [100, 199, 200, 204, 301, 399, 600, 999] {
        assert_eq!(delivery_reply(Some(status)), Reply::Done, "{}", status);
    }
    for status in [400, 401, 404, 422, 499, 500, 503, 599] {
        assert_eq!(delivery_reply(Some(status)), Reply::Failed, "{}", status);
    }
}

#[test]
fn the_client_keeps_its_timeout() {
    assert_eq!(email_client("http://localhost").timeout(), Duration::from_millis(200));
}

#[test]
fn two_texts_are_joined_in_order() {
    assert_eq!(joined("news", "letter"), "newsletter");
    assert_eq!(joined("", "letter"), "letter");
    assert_eq!(joined("news", ""), "news");
}
