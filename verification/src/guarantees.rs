//! What holds of every request, proved against the model of the database
//! and the email service.
//!
//! A run is a request from its first command to its answer: the states the
//! workflow went through, the commands it handed out and the replies it was
//! given. The theorems below hold of every run, whatever the random
//! identifier, the clock and the random token turned out to be, and
//! whichever commands failed.

use crate::confirmation::{confirmation_start, confirmation_step, Confirmation};
use crate::domain::{valid_email, valid_name, NewSubscriberView};
use crate::email_client::{EmailClientView, EmailRequestView};
use crate::model::{
    can_reply, carried_out, confirmed, merged, no_rows, tokens_resolve, with_subscriber,
    with_token, Environment, SubscriberRecord, Tables,
};
use crate::registration::{
    both_bodies_hold_the_link, check_form, confirmation_email, confirmation_link,
    form_of_fields, link_ends_with_the_token, occurs_in, registration_start, registration_step,
    FormDataView, RegistrationView,
};
use crate::store::{
    is_random_uuid, pending_row, SubscriberRowView, SubscriptionStatus, TokenRowView,
};
use crate::token::is_subscription_token;
use crate::workflow::{CommandView, Reply, Response};
use vstd::prelude::*;

verus! {

/// `tables` with a subscriber and the token that confirms it added.
pub open spec fn registered(tables: Tables, row: SubscriberRowView, token: TokenRowView) -> Tables {
    with_token(with_subscriber(tables, row), token)
}

/// One request to subscribe, from its first command to its answer.
pub ghost struct RegistrationRun {
    /// The form that the request carried, if it carried one.
    pub form: Option<FormDataView>,
    /// The email client that the workflow was given.
    pub client: EmailClientView,
    /// The base URL that the workflow was given for its links.
    pub base_url: Seq<char>,
    /// The states, the first one first.
    pub states: Seq<RegistrationView>,
    /// The command handed out with each state.
    pub commands: Seq<CommandView>,
    /// The reply given to each command.
    pub replies: Seq<Reply>,
}

impl RegistrationRun {
    /// State and command `k + 1` are a step of the workflow from state `k`
    /// and the reply to command `k`.
    pub open spec fn steps_at(self, k: int) -> bool {
        registration_step(
            self.states[k],
            self.replies[k],
            self.client,
            self.base_url,
            self.states[k + 1],
            self.commands[k + 1],
        )
    }

    /// The reply to command `k` is one that can be given after the commands
    /// before it.
    pub open spec fn replies_at(self, env: Environment, k: int) -> bool {
        can_reply(
            carried_out(env, self.commands, self.replies, k as nat),
            self.commands[k],
            self.replies[k],
        )
    }

    /// The run is one of the workflow, in surroundings that start as `env`:
    /// it starts where a registration starts, each state follows from the
    /// one before, every reply is possible, and the last state is an answer.
    pub open spec fn follows(self, env: Environment) -> bool {
        &&& self.states.len() > 0
        &&& self.commands.len() == self.states.len()
        &&& self.replies.len() == self.states.len()
        &&& (self.states[0], self.commands[0]) == registration_start(self.form)
        &&& forall|k: int| 0 <= k < self.states.len() - 1 ==> #[trigger] self.steps_at(k)
        &&& forall|k: int| 0 <= k < self.states.len() ==> #[trigger] self.replies_at(env, k)
        &&& self.states.last() is Finished
    }

    /// The answer to the request.
    pub open spec fn response(self) -> Response {
        self.states.last()->Finished_0
    }

    /// The surroundings once every command was carried out.
    pub open spec fn outcome(self, env: Environment) -> Environment {
        carried_out(env, self.commands, self.replies, self.commands.len())
    }

    /// The request carried a form that passes validation.
    pub open spec fn accepted(self) -> bool {
        self.form matches Some(form) && valid_name(form.name) && valid_email(form.email)
    }

    /// The subscriber that the form describes.
    pub open spec fn subscriber(self) -> NewSubscriberView {
        NewSubscriberView { email: self.form->Some_0.email, name: self.form->Some_0.name }
    }

    /// The subscriber row of the run: what its second command inserts.
    pub open spec fn row(self) -> SubscriberRowView {
        self.commands[1]->InsertSubscriber_0
    }

    /// The token row of the run: what its third command stores.
    pub open spec fn token(self) -> TokenRowView {
        self.commands[2]->StoreToken_0
    }

    /// The email of the run: what its fifth command sends.
    pub open spec fn email(self) -> EmailRequestView {
        self.commands[4]->SendEmail_0
    }

    /// The second command inserts the subscriber of the form, pending
    /// confirmation, under a random identifier.
    pub open spec fn inserts_subscriber(self) -> bool {
        &&& self.commands.len() > 1
        &&& self.commands[1] is InsertSubscriber
        &&& is_random_uuid(self.row().id)
        &&& self.row() == pending_row(self.row().id, self.subscriber(), self.row().subscribed_at)
    }

    /// The third command stores a well-formed token for the subscriber that
    /// the second inserts.
    pub open spec fn stores_token(self) -> bool {
        &&& self.commands.len() > 2
        &&& self.commands[2] is StoreToken
        &&& self.token().subscriber_id == self.row().id
        &&& is_subscription_token(self.token().subscription_token)
    }

    /// The fifth command sends the confirmation email for the stored token
    /// to the address of the form.
    pub open spec fn sends_confirmation(self) -> bool {
        &&& self.commands.len() > 4
        &&& self.commands[4] is SendEmail
        &&& self.email() == confirmation_email(
            self.client,
            self.subscriber().email,
            self.base_url,
            self.token().subscription_token,
        )
    }

    /// The run took `before` to `after` by storing its subscriber and its
    /// token, and nothing else, and by calling the email service once, with
    /// the confirmation email.
    pub open spec fn registers(self, before: Environment, after: Environment) -> bool {
        &&& self.inserts_subscriber()
        &&& self.stores_token()
        &&& self.sends_confirmation()
        &&& !before.tables.subscriptions.contains_key(self.row().id)
        &&& !before.tables.subscription_tokens.contains_key(self.token().subscription_token)
        &&& after.tables == registered(before.tables, self.row(), self.token())
        &&& after.sent == before.sent.push(self.email())
        &&& after.staged is None
    }

    /// The run left the tables as they were and called nobody.
    pub open spec fn leaves_untouched(self, before: Environment, after: Environment) -> bool {
        &&& after.tables == before.tables
        &&& after.sent == before.sent
    }

    /// One of the first `k` commands was not carried out.
    pub open spec fn failed_before(self, k: int) -> bool {
        exists|j: int|
            0 <= j < k && j < self.replies.len() && #[trigger] self.replies[j] != Reply::Done
    }

    /// One of the commands was not carried out.
    pub open spec fn failed(self) -> bool {
        self.failed_before(self.replies.len() as int)
    }

    /// The transaction did not commit: one of the four commands up to the
    /// commit was not carried out.
    pub open spec fn failed_to_commit(self) -> bool {
        self.failed_before(4)
    }

    /// What holds before command `k` is carried out.
    spec fn on_course(self, before: Environment, k: nat) -> bool {
        let env = carried_out(before, self.commands, self.replies, k);
        let command = self.commands[k as int];
        match self.states[k as int] {
            RegistrationView::Opening { subscriber } => {
                &&& k == 0
                &&& self.accepted()
                &&& subscriber == self.subscriber()
                &&& command == CommandView::BeginTransaction
                &&& env == before
            },
            RegistrationView::InsertingSubscriber { subscriber, subscriber_id } => {
                &&& k == 1
                &&& self.accepted()
                &&& !self.failed_before(1)
                &&& subscriber == self.subscriber()
                &&& self.inserts_subscriber()
                &&& subscriber_id == self.row().id
                &&& env == Environment { staged: Some(no_rows()), ..before }
            },
            RegistrationView::StoringToken { subscriber, subscription_token } => {
                &&& k == 2
                &&& self.accepted()
                &&& !self.failed_before(2)
                &&& subscriber == self.subscriber()
                &&& self.inserts_subscriber()
                &&& self.stores_token()
                &&& subscription_token == self.token().subscription_token
                &&& !before.tables.subscriptions.contains_key(self.row().id)
                &&& env == Environment {
                    staged: Some(with_subscriber(no_rows(), self.row())),
                    ..before
                }
            },
            RegistrationView::Committing { subscriber, subscription_token } => {
                &&& k == 3
                &&& self.accepted()
                &&& !self.failed_before(3)
                &&& subscriber == self.subscriber()
                &&& self.inserts_subscriber()
                &&& self.stores_token()
                &&& subscription_token == self.token().subscription_token
                &&& command == CommandView::Commit
                &&& !before.tables.subscriptions.contains_key(self.row().id)
                &&& !before.tables.subscription_tokens.contains_key(
                    self.token().subscription_token,
                )
                &&& env == Environment {
                    staged: Some(registered(no_rows(), self.row(), self.token())),
                    ..before
                }
            },
            RegistrationView::Sending => {
                &&& k == 4
                &&& self.accepted()
                &&& !self.failed_before(4)
                &&& self.inserts_subscriber()
                &&& self.stores_token()
                &&& self.sends_confirmation()
                &&& !before.tables.subscriptions.contains_key(self.row().id)
                &&& !before.tables.subscription_tokens.contains_key(
                    self.token().subscription_token,
                )
                &&& env == Environment {
                    tables: registered(before.tables, self.row(), self.token()),
                    ..before
                }
            },
            RegistrationView::Finished(response) => {
                &&& command == CommandView::Respond(response)
                &&& match response {
                    Response::UnprocessableEntity => {
                        &&& !self.accepted()
                        &&& !self.failed_before(k as int)
                        &&& env == before
                    },
                    Response::Success => {
                        &&& self.accepted()
                        &&& !self.failed_before(k as int)
                        &&& self.registers(before, env)
                    },
                    Response::InternalServerError => {
                        &&& self.accepted()
                        &&& self.failed_before(k as int)
                        &&& if self.failed_to_commit() {
                            self.leaves_untouched(before, env)
                        } else {
                            self.registers(before, env)
                        }
                    },
                    Response::Unauthorized => false,
                }
            },
        }
    }

    /// A failure among the first `j` commands is one among the first `k`,
    /// for `j <= k`; and one among the first `j + 1` is one among the first
    /// `j` or the failure of command `j`.
    proof fn lemma_failed_before(self, j: int, k: int)
        requires
            0 <= j < self.replies.len(),
            j < k,
        ensures
            self.failed_before(j) ==> self.failed_before(k),
            self.replies[j] != Reply::Done ==> self.failed_before(k),
            self.failed_before(j + 1) ==> self.failed_before(j) || self.replies[j] != Reply::Done,
    {
    }

    /// A command that failed among the first `k` failed.
    proof fn lemma_failed(self, k: int)
        ensures
            self.failed_before(k) ==> self.failed(),
    {
    }

    /// Once a run has an answer, every later command repeats it.
    proof fn lemma_finished_stays(self, k: int)
        requires
            0 < k < self.states.len(),
            self.states.len() == self.commands.len(),
            self.states[k - 1] is Finished,
            forall|j: int| 0 <= j < self.states.len() - 1 ==> #[trigger] self.steps_at(j),
        ensures
            self.states[k] == self.states[k - 1],
            self.commands[k] is Respond,
    {
        assert(self.steps_at(k - 1));
    }

    proof fn lemma_on_course(self, before: Environment, k: nat)
        requires
            before.staged is None,
            self.follows(before),
            k < self.states.len(),
        ensures
            self.on_course(before, k),
        decreases k,
    {
        if k == 0 {
            if let Some(form) = self.form {
                assert(check_form(form) is Ok <==> valid_name(form.name) && valid_email(
                    form.email,
                ));
            }
        } else {
            let j = (k - 1) as nat;
            self.lemma_on_course(before, j);
            assert(self.steps_at(j as int));
            assert(self.replies_at(before, j as int));
            self.lemma_failed_before(j as int, k as int);
            if j < 4 {
                self.lemma_failed_before(j as int, 4);
            }
            if self.states[j as int] is Committing && self.replies[j as int] == Reply::Done {
                let staged = registered(no_rows(), self.row(), self.token());
                let tables = registered(before.tables, self.row(), self.token());
                assert(merged(before.tables, staged).subscriptions =~= tables.subscriptions);
                assert(merged(before.tables, staged).subscription_tokens
                    =~= tables.subscription_tokens);
            }
        }
    }
}

/// A registration is all or nothing, and its answer says which.
///
/// A request that carries no form, or a form that fails validation, is
/// answered as unprocessable; nothing is written and nobody is called. Any
/// other request succeeds if every command is carried out, and ends in an
/// internal server error if one is not. If the failure comes before the
/// transaction has committed, the tables are as they were and nobody was
/// called. Otherwise the subscriber and the token are stored and the email
/// service was called once: also where it is the email service that failed,
/// and the answer is an internal server error. No transaction stays open.
pub proof fn registration_is_all_or_nothing(run: RegistrationRun, before: Environment)
    requires
        before.staged is None,
        run.follows(before),
    ensures
        run.response() == if !run.accepted() {
            Response::UnprocessableEntity
        } else if run.failed() {
            Response::InternalServerError
        } else {
            Response::Success
        },
        !run.accepted() ==> run.outcome(before) == before,
        run.accepted() && run.failed_to_commit() ==> run.leaves_untouched(
            before,
            run.outcome(before),
        ),
        run.accepted() && !run.failed_to_commit() ==> run.registers(before, run.outcome(before)),
        run.outcome(before).staged is None,
{
    let last = (run.states.len() - 1) as int;
    run.lemma_on_course(before, last as nat);
    assert(run.replies_at(before, last));
    run.lemma_failed_before(last, last + 1);
}

/// The email service is called only after the commit: a registration sends
/// its email as its fifth command, when the transaction has committed and
/// the subscriber and the token are in the tables.
pub proof fn registration_sends_only_after_the_commit(
    run: RegistrationRun,
    before: Environment,
    k: int,
)
    requires
        before.staged is None,
        run.follows(before),
        0 <= k < run.commands.len(),
        run.commands[k] is SendEmail,
    ensures
        k == 4,
        run.commands[3] == CommandView::Commit,
        run.replies[3] == Reply::Done,
        carried_out(before, run.commands, run.replies, 4) == (Environment {
            tables: registered(before.tables, run.row(), run.token()),
            ..before
        }),
{
    run.lemma_on_course(before, k as nat);
    run.lemma_on_course(before, 3);
    if run.states[3] is Finished {
        run.lemma_finished_stays(4);
    }
}

/// A registration that commits stores exactly one new subscriber: the one
/// of the form, pending confirmation. Every other row is as it was.
pub proof fn registration_stores_one_pending_subscriber(run: RegistrationRun, before: Environment)
    requires
        before.staged is None,
        run.follows(before),
        run.accepted(),
        !run.failed_to_commit(),
    ensures
        ({
            let id = run.row().id;
            let after = run.outcome(before).tables.subscriptions;
            &&& !before.tables.subscriptions.contains_key(id)
            &&& after == before.tables.subscriptions.insert(
                id,
                SubscriberRecord {
                    email: run.form->Some_0.email,
                    name: run.form->Some_0.name,
                    subscribed_at: run.row().subscribed_at,
                    status: SubscriptionStatus::PendingConfirmation,
                },
            )
            &&& after.dom() == before.tables.subscriptions.dom().insert(id)
            &&& before.tables.subscriptions.dom() == Set::<u128>::empty() ==> after.dom()
                == set![id]
        }),
{
    registration_is_all_or_nothing(run, before);
    let id = run.row().id;
    let after = run.outcome(before).tables.subscriptions;
}

/// A registration that succeeds calls the email service exactly once. The
/// HTML body and the plain-text body of that email hold the same link, and
/// the link ends with the token that was stored for the new subscriber.
pub proof fn registration_sends_one_email_with_one_link(run: RegistrationRun, before: Environment)
    requires
        before.staged is None,
        run.follows(before),
        run.response() == Response::Success,
    ensures
        ({
            let after = run.outcome(before);
            let token = run.token().subscription_token;
            let link = confirmation_link(run.base_url, token);
            &&& after.sent == before.sent.push(run.email())
            &&& run.email().recipient == run.form->Some_0.email
            &&& occurs_in(link, run.email().html_content)
            &&& occurs_in(link, run.email().text_content)
            &&& link.len() >= token.len()
            &&& link.subrange(link.len() - token.len(), link.len() as int) == token
            &&& after.tables.subscription_tokens.contains_pair(token, run.row().id)
        }),
{
    registration_is_all_or_nothing(run, before);
    run.lemma_failed(4);
    let token = run.token().subscription_token;
    both_bodies_hold_the_link(confirmation_link(run.base_url, token));
    link_ends_with_the_token(run.base_url, token);
}

/// A request to subscribe is unprocessable exactly when it carries no form
/// or a form that fails validation. A form fails validation in particular
/// when its name is empty, when its email address is empty, and when its
/// email address has no `@` or no `.`.
pub proof fn registration_rejects_bad_forms(form: Option<FormDataView>)
    ensures
        registration_start(form).0 == RegistrationView::Finished(Response::UnprocessableEntity)
            <==> !(form matches Some(f) && valid_name(f.name) && valid_email(f.email)),
        form matches Some(f) && (f.name.len() == 0 || f.email.len() == 0 || !f.email.contains('@')
            || !f.email.contains('.')) ==> registration_start(form).0
            == RegistrationView::Finished(Response::UnprocessableEntity),
{
}

/// A request that lacks the name, the email address or both is
/// unprocessable, whatever the field that is there holds.
pub proof fn registration_rejects_missing_fields(
    name: Option<Seq<char>>,
    email: Option<Seq<char>>,
)
    requires
        name is None || email is None,
    ensures
        registration_start(form_of_fields(name, email)) == (
            RegistrationView::Finished(Response::UnprocessableEntity),
            CommandView::Respond(Response::UnprocessableEntity),
        ),
{
}

/// A token that a row already holds is not stored again: a registration
/// that drew such a token ends in an internal server error and leaves the
/// tables as they were.
pub proof fn registration_fails_on_a_token_collision(run: RegistrationRun, before: Environment)
    requires
        before.staged is None,
        run.follows(before),
        run.commands.len() > 2,
        run.commands[2] is StoreToken,
        before.tables.subscription_tokens.contains_key(run.token().subscription_token),
    ensures
        run.response() == Response::InternalServerError,
        run.leaves_untouched(before, run.outcome(before)),
{
    registration_is_all_or_nothing(run, before);
    if !run.accepted() {
        run.lemma_finished_stays(1);
        run.lemma_finished_stays(2);
    }
    run.lemma_failed(4);
}

/// A registration changes no row that was there before, and keeps every
/// token tied to a subscriber that exists.
pub proof fn registration_keeps_the_tables_sound(run: RegistrationRun, before: Environment)
    requires
        before.staged is None,
        run.follows(before),
    ensures
        forall|id: u128| #[trigger]
            before.tables.subscriptions.contains_key(id) ==> run.outcome(
                before,
            ).tables.subscriptions.contains_key(id) && run.outcome(before).tables.subscriptions[id]
                == before.tables.subscriptions[id],
        forall|token: Seq<char>| #[trigger]
            before.tables.subscription_tokens.contains_key(token) ==> run.outcome(
                before,
            ).tables.subscription_tokens.contains_pair(
                token,
                before.tables.subscription_tokens[token],
            ),
        tokens_resolve(before.tables) ==> tokens_resolve(run.outcome(before).tables),
{
    registration_is_all_or_nothing(run, before);
}

/// One request to confirm a subscription, from its first command to its
/// answer.
pub ghost struct ConfirmationRun {
    /// The token that the request carried, if it carried one.
    pub subscription_token: Option<Seq<char>>,
    /// The states, the first one first.
    pub states: Seq<Confirmation>,
    /// The command handed out with each state.
    pub commands: Seq<CommandView>,
    /// The reply given to each command.
    pub replies: Seq<Reply>,
}

impl ConfirmationRun {
    /// State and command `k + 1` are the step of the workflow from state `k`
    /// and the reply to command `k`.
    pub open spec fn steps_at(self, k: int) -> bool {
        (self.states[k + 1], self.commands[k + 1]) == confirmation_step(
            self.states[k],
            self.replies[k],
        )
    }

    /// The reply to command `k` is one that can be given after the commands
    /// before it.
    pub open spec fn replies_at(self, env: Environment, k: int) -> bool {
        can_reply(
            carried_out(env, self.commands, self.replies, k as nat),
            self.commands[k],
            self.replies[k],
        )
    }

    /// The run is one of the workflow, in surroundings that start as `env`:
    /// it starts where a confirmation starts, each state follows from the
    /// one before, every reply is possible, and the last state is an answer.
    pub open spec fn follows(self, env: Environment) -> bool {
        &&& self.states.len() > 0
        &&& self.commands.len() == self.states.len()
        &&& self.replies.len() == self.states.len()
        &&& (self.states[0], self.commands[0]) == confirmation_start(self.subscription_token)
        &&& forall|k: int| 0 <= k < self.states.len() - 1 ==> #[trigger] self.steps_at(k)
        &&& forall|k: int| 0 <= k < self.states.len() ==> #[trigger] self.replies_at(env, k)
        &&& self.states.last() is Finished
    }

    /// The answer to the request.
    pub open spec fn response(self) -> Response {
        self.states.last()->Finished_0
    }

    /// The surroundings once every command was carried out.
    pub open spec fn outcome(self, env: Environment) -> Environment {
        carried_out(env, self.commands, self.replies, self.commands.len())
    }

    /// The database failed at some command of the run.
    pub open spec fn database_failed(self) -> bool {
        exists|k: int| 0 <= k < self.replies.len() && #[trigger] self.replies[k] == Reply::Failed
    }

    /// What holds before command `k` is carried out.
    spec fn on_course(self, before: Environment, k: nat) -> bool {
        let env = carried_out(before, self.commands, self.replies, k);
        let command = self.commands[k as int];
        let tokens = before.tables.subscription_tokens;
        match self.states[k as int] {
            Confirmation::LookingUp => {
                &&& k == 0
                &&& self.subscription_token matches Some(token)
                &&& command == CommandView::GetSubscriberIdFromToken(token)
                &&& !self.database_failed_before(k)
                &&& env == before
            },
            Confirmation::Confirming => {
                &&& k == 1
                &&& self.subscription_token matches Some(token)
                &&& tokens.contains_key(token)
                &&& command == CommandView::ConfirmSubscriber(tokens[token])
                &&& !self.database_failed_before(k)
                &&& env == before
            },
            Confirmation::Finished(response) => {
                &&& command == CommandView::Respond(response)
                &&& match response {
                    Response::UnprocessableEntity => {
                        &&& self.subscription_token is None
                        &&& env == before
                    },
                    Response::Unauthorized => {
                        &&& self.subscription_token matches Some(token)
                        &&& !tokens.contains_key(token)
                        &&& !self.database_failed_before(k)
                        &&& env == before
                    },
                    Response::Success => {
                        &&& self.subscription_token matches Some(token)
                        &&& tokens.contains_key(token)
                        &&& !self.database_failed_before(k)
                        &&& env == Environment {
                            tables: confirmed(before.tables, tokens[token]),
                            ..before
                        }
                    },
                    Response::InternalServerError => {
                        &&& self.subscription_token is Some
                        &&& self.database_failed_before(k)
                        &&& env == before
                    },
                }
            },
        }
    }

    /// The database failed at one of the first `k` commands.
    spec fn database_failed_before(self, k: nat) -> bool {
        exists|j: int| 0 <= j < k && #[trigger] self.replies[j] == Reply::Failed
    }

    proof fn lemma_on_course(self, before: Environment, k: nat)
        requires
            before.staged is None,
            self.follows(before),
            k < self.states.len(),
        ensures
            self.on_course(before, k),
        decreases k,
    {
        if k > 0 {
            let j = (k - 1) as nat;
            self.lemma_on_course(before, j);
            assert(self.steps_at(j as int));
            assert(self.replies_at(before, j as int));
        }
    }
}

/// What a confirmation comes to.
///
/// A request without a token is unprocessable. If the database fails, the
/// answer is an internal server error. Otherwise a token that no row holds
/// is unauthorized, and a token that a row holds succeeds: its subscriber is
/// then confirmed. Nothing else ever changes: no row is added or removed, no
/// email is sent, and a request that does not succeed changes nothing at
/// all.
pub proof fn confirmation_follows_the_token(run: ConfirmationRun, before: Environment)
    requires
        before.staged is None,
        run.follows(before),
    ensures
        run.response() == (match run.subscription_token {
            None => Response::UnprocessableEntity,
            Some(token) => if run.database_failed() {
                Response::InternalServerError
            } else if before.tables.subscription_tokens.contains_key(token) {
                Response::Success
            } else {
                Response::Unauthorized
            },
        }),
        run.outcome(before) == if run.response() == Response::Success {
            Environment {
                tables: confirmed(
                    before.tables,
                    before.tables.subscription_tokens[run.subscription_token->Some_0],
                ),
                ..before
            }
        } else {
            before
        },
{
    let last = (run.states.len() - 1) as nat;
    run.lemma_on_course(before, last);
    assert(run.replies_at(before, last as int));
}

/// A token that no row holds confirms nobody: the answer is unauthorized,
/// or an internal server error if the database failed, and no row changes.
pub proof fn unknown_token_is_unauthorized(
    run: ConfirmationRun,
    before: Environment,
    token: Seq<char>,
)
    requires
        before.staged is None,
        run.follows(before),
        run.subscription_token == Some(token),
        !before.tables.subscription_tokens.contains_key(token),
    ensures
        run.response() == if run.database_failed() {
            Response::InternalServerError
        } else {
            Response::Unauthorized
        },
        run.outcome(before) == before,
{
    confirmation_follows_the_token(run, before);
}

/// Confirming with the token of a pending subscriber makes that subscriber
/// confirmed and changes nothing else of it. Confirming once more with the
/// same token succeeds again and leaves the subscriber confirmed.
pub proof fn confirming_twice_is_confirming_once(
    first: ConfirmationRun,
    second: ConfirmationRun,
    before: Environment,
    token: Seq<char>,
)
    requires
        before.staged is None,
        tokens_resolve(before.tables),
        before.tables.subscription_tokens.contains_key(token),
        first.subscription_token == Some(token),
        second.subscription_token == Some(token),
        first.follows(before),
        second.follows(first.outcome(before)),
        !first.database_failed(),
        !second.database_failed(),
    ensures
        ({
            let id = before.tables.subscription_tokens[token];
            let was = before.tables.subscriptions[id];
            let once = first.outcome(before).tables.subscriptions;
            &&& first.response() == Response::Success
            &&& second.response() == Response::Success
            &&& once.contains_key(id)
            &&& once[id] == SubscriberRecord { status: SubscriptionStatus::Confirmed, ..was }
            &&& second.outcome(first.outcome(before)) == first.outcome(before)
        }),
{
    confirmation_follows_the_token(first, before);
    let between = first.outcome(before);
    confirmation_follows_the_token(second, between);
    let id = before.tables.subscription_tokens[token];
    assert(confirmed(between.tables, id).subscriptions =~= between.tables.subscriptions);
}

/// A confirmation adds and removes no row, changes nothing of a subscriber
/// but the status, never takes a subscriber back from "confirmed", and
/// keeps every token tied to a subscriber that exists.
pub proof fn confirmation_keeps_the_tables_sound(run: ConfirmationRun, before: Environment)
    requires
        before.staged is None,
        run.follows(before),
    ensures
        ({
            let was = before.tables;
            let now = run.outcome(before).tables;
            &&& now.subscription_tokens == was.subscription_tokens
            &&& now.subscriptions.dom() == was.subscriptions.dom()
            &&& forall|id: u128| #[trigger]
                was.subscriptions.contains_key(id) ==> {
                    ||| now.subscriptions[id] == was.subscriptions[id]
                    ||| now.subscriptions[id] == SubscriberRecord {
                        status: SubscriptionStatus::Confirmed,
                        ..was.subscriptions[id]
                    }
                }
            &&& tokens_resolve(was) ==> tokens_resolve(now)
        }),
{
    confirmation_follows_the_token(run, before);
    let was = before.tables;
    let now = run.outcome(before).tables;
}

/// From registration to confirmation: the token that a successful
/// registration stored, presented in a confirmation that does not fail,
/// takes the new subscriber from "pending confirmation" to "confirmed".
pub proof fn the_emailed_token_confirms_the_subscriber(
    registration: RegistrationRun,
    confirmation: ConfirmationRun,
    before: Environment,
)
    requires
        before.staged is None,
        tokens_resolve(before.tables),
        registration.follows(before),
        registration.response() == Response::Success,
        confirmation.follows(registration.outcome(before)),
        confirmation.subscription_token == Some(registration.token().subscription_token),
        !confirmation.database_failed(),
    ensures
        ({
            let id = registration.row().id;
            let pending = registration.outcome(before).tables.subscriptions;
            let done = confirmation.outcome(registration.outcome(before)).tables.subscriptions;
            &&& pending.contains_key(id)
            &&& pending[id].status == SubscriptionStatus::PendingConfirmation
            &&& confirmation.response() == Response::Success
            &&& done.contains_key(id)
            &&& done[id] == SubscriberRecord {
                status: SubscriptionStatus::Confirmed,
                ..pending[id]
            }
        }),
{
    registration_is_all_or_nothing(registration, before);
    confirmation_follows_the_token(confirmation, registration.outcome(before));
}

} // verus!
