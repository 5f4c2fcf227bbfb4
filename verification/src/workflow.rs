//! What the two workflows ask of their surroundings and what they are told
//! in return.
//!
//! A workflow never touches the database or the email service. It hands out
//! one [`Command`] at a time; the caller carries the command out and reports
//! how that went in a [`Reply`], which the workflow turns into the next
//! command. The last command of a request is always [`Command::Respond`].

use crate::email_client::{EmailRequest, EmailRequestView};
use crate::store::{SubscriberRow, SubscriberRowView, TokenRow, TokenRowView};
use vstd::prelude::*;

verus! {

/// The answer to a request.
#[derive(Clone, Copy, Debug, PartialEq, Eq, Structural)]
pub enum Response {
    /// The request was carried out.
    Success,
    /// The request was missing something or failed validation.
    UnprocessableEntity,
    /// The confirmation token is not known.
    Unauthorized,
    /// The database or the email service failed.
    InternalServerError,
}

/// The HTTP status code that stands for `response`.
pub open spec fn status_code_of(response: Response) -> u16 {
    match response {
        Response::Success => 200,
        Response::UnprocessableEntity => 422,
        Response::Unauthorized => 401,
        Response::InternalServerError => 500,
    }
}

impl Response {
    /// The HTTP status code that stands for this response.
    pub fn status_code(&self) -> (code: u16)
        ensures
            code == status_code_of(*self),
    {
        match self {
            Response::Success => 200,
            Response::UnprocessableEntity => 422,
            Response::Unauthorized => 401,
            Response::InternalServerError => 500,
        }
    }
}

/// How carrying out a command went.
#[derive(Clone, Copy, Debug, PartialEq, Eq, Structural)]
pub enum Reply {
    /// The command was carried out.
    Done,
    /// The token belongs to the subscriber with this identifier.
    Found(u128),
    /// No row holds the token.
    NotFound,
    /// The database or the email service failed.
    Failed,
}

/// One thing for the caller to do.
pub enum Command {
    /// Open a database transaction. The commands up to [`Command::Commit`]
    /// run inside it.
    BeginTransaction,
    /// Insert the row into `subscriptions`.
    InsertSubscriber(SubscriberRow),
    /// Insert the row into `subscription_tokens`.
    StoreToken(TokenRow),
    /// Commit the open transaction.
    Commit,
    /// Call the email service.
    SendEmail(EmailRequest),
    /// Look the token up in `subscription_tokens`; the reply is
    /// [`Reply::Found`] or [`Reply::NotFound`].
    GetSubscriberIdFromToken(String),
    /// Set the status of the subscriber with this identifier to "confirmed".
    ConfirmSubscriber(u128),
    /// Answer the request. A transaction that is still open is abandoned.
    Respond(Response),
}

/// A [`Command`], as plain values.
pub ghost enum CommandView {
    BeginTransaction,
    InsertSubscriber(SubscriberRowView),
    StoreToken(TokenRowView),
    Commit,
    SendEmail(EmailRequestView),
    GetSubscriberIdFromToken(Seq<char>),
    ConfirmSubscriber(u128),
    Respond(Response),
}

impl View for Command {
    type V = CommandView;

    open spec fn view(&self) -> CommandView {
        match self {
            Command::BeginTransaction => CommandView::BeginTransaction,
            Command::InsertSubscriber(row) => CommandView::InsertSubscriber(row@),
            Command::StoreToken(row) => CommandView::StoreToken(row@),
            Command::Commit => CommandView::Commit,
            Command::SendEmail(request) => CommandView::SendEmail(request@),
            Command::GetSubscriberIdFromToken(token) => CommandView::GetSubscriberIdFromToken(
                token@,
            ),
            Command::ConfirmSubscriber(id) => CommandView::ConfirmSubscriber(*id),
            Command::Respond(response) => CommandView::Respond(*response),
        }
    }
}

} // verus!
