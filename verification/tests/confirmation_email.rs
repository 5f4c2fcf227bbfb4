use newsletter::domain::{NewSubscriber, SubscriberEmail, SubscriberName};
use newsletter::email_client::EmailClient;
use newsletter::registration::send_confirmation_email;
use std::time::Duration;

fn alice() -> NewSubscriber {
    NewSubscriber {
        email: SubscriberEmail::parse("alice@example.com".to_string()).unwrap(),
        name: SubscriberName::parse("Alice".to_string()).unwrap(),
    }
}

fn email_client() -> EmailClient {
    EmailClient::new(
        "https://api.email.example.com".to_string(),
        SubscriberEmail::parse("newsletter@example.com".to_string()).unwrap(),
        "an-authorization-token".to_string(),
        Duration::from_secs(10),
    )
}

#[test]
fn the_confirmation_email_is_made_of_the_base_url_and_the_token() {
    let request = send_confirmation_email(
        &email_client(),
        alice(),
        "https://newsletter.example.com",
        "0123456789abcdefghijABCDE",
    );

    assert_eq!(request.url, "https://api.email.example.com/mail/send");
    assert_eq!(request.authorization_token, "an-authorization-token");
    assert_eq!(request.timeout, Duration::from_secs(10));
    assert_eq!(request.sender, "newsletter@example.com");
    assert_eq!(request.recipient, "alice@example.com");
    assert_eq!(request.subject, "Welcome!");
    assert_eq!(
        request.html_content,
        "Welcome to our newsletter!<br />Click <a href=\"https://newsletter.example.com/subscriptions/confirm?subscription_token=0123456789abcdefghijABCDE\">here</a> to confirm your subscription."
    );
    assert_eq!(
        request.text_content,
        "Welcome to our newsletter!\nVisit https://newsletter.example.com/subscriptions/confirm?subscription_token=0123456789abcdefghijABCDE to confirm your subscription."
    );
}

#[test]
fn the_link_takes_the_base_url_as_it_is() {
    let request = send_confirmation_email(&email_client(), alice(), "", "t");
    assert_eq!(
        request.text_content,
        "Welcome to our newsletter!\nVisit /subscriptions/confirm?subscription_token=t to confirm your subscription."
    );
}
