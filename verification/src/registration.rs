//! Registering a subscriber: validate the form, store the subscriber and a
//! confirmation token in one transaction, commit, and only then send the
//! confirmation email.

use crate::domain::{
    check_email, check_name, valid_email, valid_name, NewSubscriber, NewSubscriberView,
    SubscriberEmail, SubscriberName, ValidationError,
};
use crate::email_client::{
    email_request, joined, EmailClient, EmailClientView, EmailRequest, EmailRequestView,
};
use crate::store::{insert_subscriber, is_random_uuid, pending_row, store_token};
use crate::token::{generate_subscription_token, is_subscription_token};
use crate::workflow::{Command, CommandView, Reply, Response};
use vstd::prelude::*;

verus! {

/// What a visitor submits to subscribe.
#[derive(Debug, PartialEq, Eq)]
pub struct FormData {
    pub name: String,
    pub email: String,
}

/// What a [`FormData`] holds, as plain text.
pub ghost struct FormDataView {
    pub name: Seq<char>,
    pub email: Seq<char>,
}

impl View for FormData {
    type V = FormDataView;

    open spec fn view(&self) -> FormDataView {
        FormDataView { name: self.name@, email: self.email@ }
    }
}

/// The verdict on a form: the first rule that its name breaks, else the
/// first that its email address breaks.
pub open spec fn check_form(form: FormDataView) -> Result<(), ValidationError> {
    match check_name(form.name) {
        Err(e) => Err(e),
        Ok(_) => check_email(form.email),
    }
}

/// The form made of the fields that a request carried: there is one only
/// if no field is missing.
pub open spec fn form_of_fields(name: Option<Seq<char>>, email: Option<Seq<char>>) -> Option<
    FormDataView,
> {
    match (name, email) {
        (Some(name), Some(email)) => Some(FormDataView { name, email }),
        _ => None,
    }
}

/// What a field holds, as plain text.
pub open spec fn field_text(field: Option<String>) -> Option<Seq<char>> {
    match field {
        Some(text) => Some(text@),
        None => None,
    }
}

impl FormData {
    /// The form with the given fields, if none is missing.
    pub fn from_fields(name: Option<String>, email: Option<String>) -> (form: Option<FormData>)
        ensures
            submitted(form) == form_of_fields(field_text(name), field_text(email)),
            form matches Some(f) ==> Some(f.name) == name && Some(f.email) == email,
    {
        match (name, email) {
            (Some(name), Some(email)) => Some(FormData { name, email }),
            _ => None,
        }
    }
}

impl NewSubscriber {
    /// Validates the form: the name first, then the email address.
    pub fn try_from(form: FormData) -> (r: Result<NewSubscriber, ValidationError>)
        ensures
            match r {
                Ok(subscriber) => {
                    &&& valid_name(form@.name)
                    &&& valid_email(form@.email)
                    &&& subscriber@ == (NewSubscriberView { email: form@.email, name: form@.name })
                },
                Err(e) => check_form(form@) == Err::<(), ValidationError>(e),
            },
    {
        let name = match SubscriberName::parse(form.name) {
            Ok(name) => name,
            Err(e) => {
                return Err(e);
            },
        };
        let email = match SubscriberEmail::parse(form.email) {
            Ok(email) => email,
            Err(e) => {
                return Err(e);
            },
        };
        Ok(NewSubscriber { email, name })
    }
}

/// The link that confirms the subscription with `subscription_token`.
pub open spec fn confirmation_link(base_url: Seq<char>, subscription_token: Seq<char>) -> Seq<char> {
    base_url + "/subscriptions/confirm?subscription_token="@ + subscription_token
}

/// The subject of the confirmation email.
pub open spec fn confirmation_subject() -> Seq<char> {
    "Welcome!"@
}

/// The HTML body of the confirmation email.
pub open spec fn confirmation_html(link: Seq<char>) -> Seq<char> {
    "Welcome to our newsletter!<br />Click <a href=\""@ + link
        + "\">here</a> to confirm your subscription."@
}

/// The plain-text body of the confirmation email.
pub open spec fn confirmation_text(link: Seq<char>) -> Seq<char> {
    "Welcome to our newsletter!\nVisit "@ + link + " to confirm your subscription."@
}

/// The request that sends the confirmation email for `subscription_token`
/// to the address `recipient`.
pub open spec fn confirmation_email(
    client: EmailClientView,
    recipient: Seq<char>,
    base_url: Seq<char>,
    subscription_token: Seq<char>,
) -> EmailRequestView {
    let link = confirmation_link(base_url, subscription_token);
    email_request(
        client,
        recipient,
        confirmation_subject(),
        confirmation_html(link),
        confirmation_text(link),
    )
}

/// The request that sends `new_subscriber` the confirmation email: both
/// bodies hold the link made of `base_url` and `subscription_token`.
pub fn send_confirmation_email(
    email_client: &EmailClient,
    new_subscriber: NewSubscriber,
    base_url: &str,
    subscription_token: &str,
) -> (request: EmailRequest)
    ensures
        request@ == confirmation_email(
            email_client@,
            new_subscriber@.email,
            base_url@,
            subscription_token@,
        ),
{
    let confirmation_link = joined(
        joined(base_url, "/subscriptions/confirm?subscription_token=").as_str(),
        subscription_token,
    );
    let html = joined(
        joined(
            "Welcome to our newsletter!<br />Click <a href=\"",
            confirmation_link.as_str(),
        ).as_str(),
        "\">here</a> to confirm your subscription.",
    );
    let text = joined(
        joined("Welcome to our newsletter!\nVisit ", confirmation_link.as_str()).as_str(),
        " to confirm your subscription.",
    );
    email_client.send_email(new_subscriber.email, "Welcome!", html.as_str(), text.as_str())
}

/// `part` stands somewhere in `whole`, unbroken.
pub open spec fn occurs_in(part: Seq<char>, whole: Seq<char>) -> bool {
    exists|at: int|
        0 <= at && at + part.len() <= whole.len() && #[trigger] whole.subrange(
            at,
            at + part.len(),
        ) == part
}

/// The HTML body and the plain-text body of the confirmation email hold the
/// same link.
pub proof fn both_bodies_hold_the_link(link: Seq<char>)
    ensures
        occurs_in(link, confirmation_html(link)),
        occurs_in(link, confirmation_text(link)),
{
    let html_lead = "Welcome to our newsletter!<br />Click <a href=\""@;
    let text_lead = "Welcome to our newsletter!\nVisit "@;
    let html = confirmation_html(link);
    let text = confirmation_text(link);
    let html_at = html_lead.len() as int;
    let text_at = text_lead.len() as int;
    assert(html.subrange(html_at, html_at + link.len()) == link);
    assert(text.subrange(text_at, text_at + link.len()) == link);
}

/// A confirmation link ends with its token.
pub proof fn link_ends_with_the_token(base_url: Seq<char>, subscription_token: Seq<char>)
    ensures
        ({
            let link = confirmation_link(base_url, subscription_token);
            &&& link.len() >= subscription_token.len()
            &&& link.subrange(link.len() - subscription_token.len(), link.len() as int)
                == subscription_token
        }),
{
}

/// How far a registration has come. Each state but the last waits for the
/// reply to the command that was handed out with it.
pub enum Registration {
    /// Waiting for the transaction to open.
    Opening { subscriber: NewSubscriber },
    /// Waiting for the subscriber to be inserted.
    InsertingSubscriber { subscriber: NewSubscriber, subscriber_id: u128 },
    /// Waiting for the token to be stored.
    StoringToken { subscriber: NewSubscriber, subscription_token: String },
    /// Waiting for the transaction to commit.
    Committing { subscriber: NewSubscriber, subscription_token: String },
    /// Waiting for the email service.
    Sending,
    /// The request is answered.
    Finished(Response),
}

/// A [`Registration`], as plain values.
pub ghost enum RegistrationView {
    Opening { subscriber: NewSubscriberView },
    InsertingSubscriber { subscriber: NewSubscriberView, subscriber_id: u128 },
    StoringToken { subscriber: NewSubscriberView, subscription_token: Seq<char> },
    Committing { subscriber: NewSubscriberView, subscription_token: Seq<char> },
    Sending,
    Finished(Response),
}

impl View for Registration {
    type V = RegistrationView;

    open spec fn view(&self) -> RegistrationView {
        match self {
            Registration::Opening { subscriber } => RegistrationView::Opening {
                subscriber: subscriber@,
            },
            Registration::InsertingSubscriber {
                subscriber,
                subscriber_id,
            } => RegistrationView::InsertingSubscriber {
                subscriber: subscriber@,
                subscriber_id: *subscriber_id,
            },
            Registration::StoringToken {
                subscriber,
                subscription_token,
            } => RegistrationView::StoringToken {
                subscriber: subscriber@,
                subscription_token: subscription_token@,
            },
            Registration::Committing {
                subscriber,
                subscription_token,
            } => RegistrationView::Committing {
                subscriber: subscriber@,
                subscription_token: subscription_token@,
            },
            Registration::Sending => RegistrationView::Sending,
            Registration::Finished(response) => RegistrationView::Finished(*response),
        }
    }
}

/// The form that a request carried, as plain text.
pub open spec fn submitted(form: Option<FormData>) -> Option<FormDataView> {
    match form {
        Some(form) => Some(form@),
        None => None,
    }
}

/// Where a registration starts. A request without a form, or with a form
/// that fails validation, is answered at once as unprocessable; any other
/// asks for a transaction.
pub open spec fn registration_start(form: Option<FormDataView>) -> (
    RegistrationView,
    CommandView,
) {
    match form {
        Some(form) if check_form(form) is Ok => (
            RegistrationView::Opening {
                subscriber: NewSubscriberView { email: form.email, name: form.name },
            },
            CommandView::BeginTransaction,
        ),
        _ => (
            RegistrationView::Finished(Response::UnprocessableEntity),
            CommandView::Respond(Response::UnprocessableEntity),
        ),
    }
}

/// One step of a registration: from the state `pre` and the reply to its
/// command, to the state `post` and its command.
///
/// A finished registration stays as it is. Any reply but [`Reply::Done`]
/// ends the registration with an internal server error. Otherwise the steps
/// follow each other: insert the subscriber, pending confirmation, under a
/// fresh random identifier; store a fresh token for that identifier; commit;
/// send the confirmation email with that token; answer with success.
pub open spec fn registration_step(
    pre: RegistrationView,
    reply: Reply,
    client: EmailClientView,
    base_url: Seq<char>,
    post: RegistrationView,
    command: CommandView,
) -> bool {
    match pre {
        RegistrationView::Finished(response) => {
            &&& post == pre
            &&& command == CommandView::Respond(response)
        },
        _ => if reply != Reply::Done {
            &&& post == RegistrationView::Finished(Response::InternalServerError)
            &&& command == CommandView::Respond(Response::InternalServerError)
        } else {
            match pre {
                RegistrationView::Opening { subscriber } => {
                    &&& command matches CommandView::InsertSubscriber(row)
                    &&& is_random_uuid(row.id)
                    &&& row == pending_row(row.id, subscriber, row.subscribed_at)
                    &&& post == RegistrationView::InsertingSubscriber {
                        subscriber,
                        subscriber_id: row.id,
                    }
                },
                RegistrationView::InsertingSubscriber { subscriber, subscriber_id } => {
                    &&& command matches CommandView::StoreToken(row)
                    &&& is_subscription_token(row.subscription_token)
                    &&& row.subscriber_id == subscriber_id
                    &&& post == RegistrationView::StoringToken {
                        subscriber,
                        subscription_token: row.subscription_token,
                    }
                },
                RegistrationView::StoringToken { subscriber, subscription_token } => {
                    &&& command == CommandView::Commit
                    &&& post == RegistrationView::Committing { subscriber, subscription_token }
                },
                RegistrationView::Committing { subscriber, subscription_token } => {
                    &&& command == CommandView::SendEmail(
                        confirmation_email(client, subscriber.email, base_url, subscription_token),
                    )
                    &&& post == RegistrationView::Sending
                },
                RegistrationView::Sending => {
                    &&& post == RegistrationView::Finished(Response::Success)
                    &&& command == CommandView::Respond(Response::Success)
                },
                RegistrationView::Finished(_) => false,
            }
        },
    }
}

/// Takes up a request to subscribe and returns the state of the
/// registration with its first command.
pub fn subscribe(form: Option<FormData>) -> (start: (Registration, Command))
    ensures
        start@ == registration_start(submitted(form)),
{
    let rejected = (
        Registration::Finished(Response::UnprocessableEntity),
        Command::Respond(Response::UnprocessableEntity),
    );
    match form {
        None => rejected,
        Some(form) => match NewSubscriber::try_from(form) {
            Ok(subscriber) => (Registration::Opening { subscriber }, Command::BeginTransaction),
            Err(_) => rejected,
        },
    }
}

impl Registration {
    /// Takes the reply to the command that came with this state and returns
    /// the next state with its command.
    pub fn advance(self, reply: Reply, email_client: &EmailClient, base_url: &str) -> (next: (
        Registration,
        Command,
    ))
        ensures
            registration_step(self@, reply, email_client@, base_url@, next.0@, next.1@),
    {
        if let Registration::Finished(response) = self {
            return (Registration::Finished(response), Command::Respond(response));
        }
        match reply {
            Reply::Done => {},
            _ => {
                return (
                    Registration::Finished(Response::InternalServerError),
                    Command::Respond(Response::InternalServerError),
                );
            },
        }
        match self {
            Registration::Opening { subscriber } => {
                let row = insert_subscriber(&subscriber);
                let subscriber_id = row.id;
                (
                    Registration::InsertingSubscriber { subscriber, subscriber_id },
                    Command::InsertSubscriber(row),
                )
            },
            Registration::InsertingSubscriber { subscriber, subscriber_id } => {
                let subscription_token = generate_subscription_token();
                let row = store_token(subscriber_id, subscription_token.as_str());
                (
                    Registration::StoringToken { subscriber, subscription_token },
                    Command::StoreToken(row),
                )
            },
            Registration::StoringToken { subscriber, subscription_token } => (
                Registration::Committing { subscriber, subscription_token },
                Command::Commit,
            ),
            Registration::Committing { subscriber, subscription_token } => {
                let request = send_confirmation_email(
                    email_client,
                    subscriber,
                    base_url,
                    subscription_token.as_str(),
                );
                (Registration::Sending, Command::SendEmail(request))
            },
            Registration::Sending => (
                Registration::Finished(Response::Success),
                Command::Respond(Response::Success),
            ),
            Registration::Finished(response) => (
                Registration::Finished(response),
                Command::Respond(response),
            ),
        }
    }
}

} // verus!
