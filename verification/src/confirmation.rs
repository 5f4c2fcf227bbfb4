//! Confirming a subscription: look the token up and, if it is known, mark
//! its subscriber as confirmed.

use crate::workflow::{Command, CommandView, Reply, Response};
use vstd::prelude::*;

verus! {

/// What a confirmation link carries.
#[derive(Debug, PartialEq, Eq)]
pub struct Parameters {
    pub subscription_token: String,
}

/// How far a confirmation has come. Each state but the last waits for the
/// reply to the command that was handed out with it.
#[derive(Clone, Copy, Debug, PartialEq, Eq, Structural)]
pub enum Confirmation {
    /// Waiting for the token to be looked up.
    LookingUp,
    /// Waiting for the subscriber to be marked as confirmed.
    Confirming,
    /// The request is answered.
    Finished(Response),
}

/// The token that a request carried, as plain text.
pub open spec fn presented(parameters: Option<Parameters>) -> Option<Seq<char>> {
    match parameters {
        Some(parameters) => Some(parameters.subscription_token@),
        None => None,
    }
}

/// Where a confirmation starts. A request without a token is answered at
/// once as unprocessable; any other asks for the token to be looked up.
pub open spec fn confirmation_start(subscription_token: Option<Seq<char>>) -> (
    Confirmation,
    CommandView,
) {
    match subscription_token {
        Some(token) => (Confirmation::LookingUp, CommandView::GetSubscriberIdFromToken(token)),
        None => (
            Confirmation::Finished(Response::UnprocessableEntity),
            CommandView::Respond(Response::UnprocessableEntity),
        ),
    }
}

/// The answer that ends a confirmation with `response`.
pub open spec fn finished(response: Response) -> (Confirmation, CommandView) {
    (Confirmation::Finished(response), CommandView::Respond(response))
}

/// One step of a confirmation: from the state `pre` and the reply to its
/// command, to the next state and its command.
///
/// A finished confirmation stays as it is. A token that is found has its
/// subscriber confirmed; one that is not found is unauthorized. Once the
/// subscriber is confirmed the answer is success. Any other reply ends the
/// confirmation with an internal server error.
pub open spec fn confirmation_step(pre: Confirmation, reply: Reply) -> (Confirmation, CommandView) {
    match pre {
        Confirmation::Finished(response) => finished(response),
        Confirmation::LookingUp => match reply {
            Reply::Found(id) => (Confirmation::Confirming, CommandView::ConfirmSubscriber(id)),
            Reply::NotFound => finished(Response::Unauthorized),
            _ => finished(Response::InternalServerError),
        },
        Confirmation::Confirming => match reply {
            Reply::Done => finished(Response::Success),
            _ => finished(Response::InternalServerError),
        },
    }
}

/// Takes up a request to confirm a subscription and returns the state of
/// the confirmation with its first command.
pub fn confirm(parameters: Option<Parameters>) -> (start: (Confirmation, Command))
    ensures
        start.0 == confirmation_start(presented(parameters)).0,
        start.1@ == confirmation_start(presented(parameters)).1,
{
    match parameters {
        Some(parameters) => (
            Confirmation::LookingUp,
            Command::GetSubscriberIdFromToken(parameters.subscription_token),
        ),
        None => (
            Confirmation::Finished(Response::UnprocessableEntity),
            Command::Respond(Response::UnprocessableEntity),
        ),
    }
}

impl Confirmation {
    /// Takes the reply to the command that came with this state and returns
    /// the next state with its command.
    pub fn advance(self, reply: Reply) -> (next: (Confirmation, Command))
        ensures
            next.0 == confirmation_step(self, reply).0,
            next.1@ == confirmation_step(self, reply).1,
    {
        let response = match self {
            Confirmation::Finished(response) => response,
            Confirmation::LookingUp => match reply {
                Reply::Found(id) => {
                    return (Confirmation::Confirming, Command::ConfirmSubscriber(id));
                },
                Reply::NotFound => Response::Unauthorized,
                _ => Response::InternalServerError,
            },
            Confirmation::Confirming => match reply {
                Reply::Done => Response::Success,
                _ => Response::InternalServerError,
            },
        };
        (Confirmation::Finished(response), Command::Respond(response))
    }
}

} // verus!
