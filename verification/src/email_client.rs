//! The client of the email service: it describes the request that sends one
//! message. Carrying the request out is left to the caller.

use crate::domain::SubscriberEmail;
use crate::workflow::Reply;
use std::time::Duration;
use vstd::prelude::*;
use vstd::string::*;

verus! {

/// The path of the email service's endpoint for sending, below its base URL.
pub open spec fn send_path() -> Seq<char> {
    "/mail/send"@
}

/// The configuration of the email service.
pub struct EmailClient {
    sender: SubscriberEmail,
    base_url: String,
    authorization_token: String,
    timeout: Duration,
}

/// What an [`EmailClient`] holds, as plain values.
pub ghost struct EmailClientView {
    pub sender: Seq<char>,
    pub base_url: Seq<char>,
    pub authorization_token: Seq<char>,
    pub timeout: Duration,
}

impl View for EmailClient {
    type V = EmailClientView;

    closed spec fn view(&self) -> EmailClientView {
        EmailClientView {
            sender: self.sender@,
            base_url: self.base_url@,
            authorization_token: self.authorization_token@,
            timeout: self.timeout,
        }
    }
}

/// One call of the email service: a `POST` of the message to `url`, with
/// `authorization_token` as bearer token, given up after `timeout`.
pub struct EmailRequest {
    pub url: String,
    pub authorization_token: String,
    pub timeout: Duration,
    pub sender: String,
    pub recipient: String,
    pub subject: String,
    pub html_content: String,
    pub text_content: String,
}

/// What an [`EmailRequest`] holds, as plain values.
pub ghost struct EmailRequestView {
    pub url: Seq<char>,
    pub authorization_token: Seq<char>,
    pub timeout: Duration,
    pub sender: Seq<char>,
    pub recipient: Seq<char>,
    pub subject: Seq<char>,
    pub html_content: Seq<char>,
    pub text_content: Seq<char>,
}

impl View for EmailRequest {
    type V = EmailRequestView;

    open spec fn view(&self) -> EmailRequestView {
        EmailRequestView {
            url: self.url@,
            authorization_token: self.authorization_token@,
            timeout: self.timeout,
            sender: self.sender@,
            recipient: self.recipient@,
            subject: self.subject@,
            html_content: self.html_content@,
            text_content: self.text_content@,
        }
    }
}

/// The request by which `client` sends a message to `recipient`.
pub open spec fn email_request(
    client: EmailClientView,
    recipient: Seq<char>,
    subject: Seq<char>,
    html_content: Seq<char>,
    text_content: Seq<char>,
) -> EmailRequestView {
    EmailRequestView {
        url: client.base_url + send_path(),
        authorization_token: client.authorization_token,
        timeout: client.timeout,
        sender: client.sender,
        recipient,
        subject,
        html_content,
        text_content,
    }
}

/// The status codes that report an error: those of the client errors, from
/// 400, and of the server errors, up to 599.
pub open spec fn is_error_status(status: u16) -> bool {
    400 <= status < 600
}

/// What an answer of the email service comes to: `status` is the status
/// code of its response, and `None` where no response came in time. The
/// email counts as sent unless the response is missing or reports an error.
pub fn delivery_reply(status: Option<u16>) -> (reply: Reply)
    ensures
        reply == match status {
            Some(code) if !is_error_status(code) => Reply::Done,
            _ => Reply::Failed,
        },
{
    match status {
        Some(code) => if 400 <= code && code < 600 {
            Reply::Failed
        } else {
            Reply::Done
        },
        None => Reply::Failed,
    }
}

/// The text `a` followed by the text `b`.
pub fn joined(a: &str, b: &str) -> (r: String)
    ensures
        r@ == a@ + b@,
{
    let mut r = String::from_str(a);
    r.append(b);
    r
}

impl EmailClient {
    /// A client that sends in the name of `sender` through the service at
    /// `base_url`, authorised by `authorization_token`, and waits at most
    /// `timeout` for each answer.
    pub fn new(
        base_url: String,
        sender: SubscriberEmail,
        authorization_token: String,
        timeout: Duration,
    ) -> (client: EmailClient)
        ensures
            client@ == (EmailClientView {
                sender: sender@,
                base_url: base_url@,
                authorization_token: authorization_token@,
                timeout,
            }),
    {
        EmailClient { sender, base_url, authorization_token, timeout }
    }

    /// How long the service is given to answer.
    pub fn timeout(&self) -> (timeout: Duration)
        ensures
            timeout == self@.timeout,
    {
        self.timeout
    }

    /// The request that sends the message to `recipient`.
    pub fn send_email(
        &self,
        recipient: SubscriberEmail,
        subject: &str,
        html_content: &str,
        text_content: &str,
    ) -> (request: EmailRequest)
        ensures
            request@ == email_request(
                self@,
                recipient@,
                subject@,
                html_content@,
                text_content@,
            ),
    {
        EmailRequest {
            url: joined(self.base_url.as_str(), "/mail/send"),
            authorization_token: self.authorization_token.clone(),
            timeout: self.timeout,
            sender: String::from_str(self.sender.as_ref()),
            recipient: String::from_str(recipient.as_ref()),
            subject: String::from_str(subject),
            html_content: String::from_str(html_content),
            text_content: String::from_str(text_content),
        }
    }
}

} // verus!
