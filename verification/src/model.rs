//! What the commands mean: a model of the database and of the email
//! service, against which the guarantees of the workflows are stated.
//!
//! Nothing here runs. The model says what carrying out a [`Command`] does to
//! the two tables and which replies an honest database can give; whoever
//! carries the commands out has to live up to it.

use crate::email_client::EmailRequestView;
use crate::store::{SubscriberRowView, SubscriptionStatus, TokenRowView};
use crate::workflow::{CommandView, Reply};
use vstd::prelude::*;

verus! {

/// What `subscriptions` holds of one subscriber, under the identifier.
pub ghost struct SubscriberRecord {
    pub email: Seq<char>,
    pub name: Seq<char>,
    pub subscribed_at: i64,
    pub status: SubscriptionStatus,
}

/// The two tables: `subscriptions` by identifier, and `subscription_tokens`
/// by token, each token with the identifier of its subscriber.
pub ghost struct Tables {
    pub subscriptions: Map<u128, SubscriberRecord>,
    pub subscription_tokens: Map<Seq<char>, u128>,
}

/// The surroundings of a request: the committed tables, the rows written
/// by the open transaction if there is one, and the calls made to the email
/// service so far.
pub ghost struct Environment {
    pub tables: Tables,
    pub staged: Option<Tables>,
    pub sent: Seq<EmailRequestView>,
}

/// What `subscriptions` holds of `row`.
pub open spec fn record_of(row: SubscriberRowView) -> SubscriberRecord {
    SubscriberRecord {
        email: row.email,
        name: row.name,
        subscribed_at: row.subscribed_at,
        status: row.status,
    }
}

/// Tables without rows.
pub open spec fn no_rows() -> Tables {
    Tables { subscriptions: Map::empty(), subscription_tokens: Map::empty() }
}

/// `tables` with the subscriber `row` added.
pub open spec fn with_subscriber(tables: Tables, row: SubscriberRowView) -> Tables {
    Tables { subscriptions: tables.subscriptions.insert(row.id, record_of(row)), ..tables }
}

/// `tables` with the token `row` added.
pub open spec fn with_token(tables: Tables, row: TokenRowView) -> Tables {
    Tables {
        subscription_tokens: tables.subscription_tokens.insert(
            row.subscription_token,
            row.subscriber_id,
        ),
        ..tables
    }
}

/// `tables` with the rows of a committed transaction added.
pub open spec fn merged(tables: Tables, staged: Tables) -> Tables {
    Tables {
        subscriptions: tables.subscriptions.union_prefer_right(staged.subscriptions),
        subscription_tokens: tables.subscription_tokens.union_prefer_right(
            staged.subscription_tokens,
        ),
    }
}

/// `tables` with the subscriber `id`, if there is one, set to "confirmed".
/// Nothing else changes.
pub open spec fn confirmed(tables: Tables, id: u128) -> Tables {
    if tables.subscriptions.contains_key(id) {
        Tables {
            subscriptions: tables.subscriptions.insert(
                id,
                SubscriberRecord {
                    status: SubscriptionStatus::Confirmed,
                    ..tables.subscriptions[id]
                },
            ),
            ..tables
        }
    } else {
        tables
    }
}

/// Every token belongs to a subscriber that exists.
pub open spec fn tokens_resolve(tables: Tables) -> bool {
    forall|token: Seq<char>| #[trigger]
        tables.subscription_tokens.contains_key(token) ==> tables.subscriptions.contains_key(
            tables.subscription_tokens[token],
        )
}

/// Whether an honest database or email service can give `reply` to
/// `command`. Failure is always possible. A row is inserted only under an
/// identifier, or a token, that no row has yet; a token is found exactly
/// when a committed row holds it.
pub open spec fn can_reply(env: Environment, command: CommandView, reply: Reply) -> bool {
    match command {
        CommandView::InsertSubscriber(row) => {
            ||| reply == Reply::Failed
            ||| {
                &&& reply == Reply::Done
                &&& !env.tables.subscriptions.contains_key(row.id)
                &&& env.staged matches Some(staged) ==> !staged.subscriptions.contains_key(row.id)
            }
        },
        CommandView::StoreToken(row) => {
            ||| reply == Reply::Failed
            ||| {
                &&& reply == Reply::Done
                &&& !env.tables.subscription_tokens.contains_key(row.subscription_token)
                &&& env.staged matches Some(staged) ==> !staged.subscription_tokens.contains_key(
                    row.subscription_token,
                )
            }
        },
        CommandView::GetSubscriberIdFromToken(token) => match reply {
            Reply::Failed => true,
            Reply::Found(id) => env.tables.subscription_tokens.contains_pair(token, id),
            Reply::NotFound => !env.tables.subscription_tokens.contains_key(token),
            Reply::Done => false,
        },
        CommandView::Respond(_) => reply == Reply::Done,
        _ => reply == Reply::Done || reply == Reply::Failed,
    }
}

/// The surroundings after `command` was carried out with `reply`.
///
/// Rows inserted while a transaction is open are staged, and reach the
/// tables when the transaction commits. A failed commit and the answer to
/// the request both abandon what is staged. A call of the email service
/// counts whether or not it succeeds. Any other command that does not
/// succeed changes nothing.
pub open spec fn carry_out(env: Environment, command: CommandView, reply: Reply) -> Environment {
    match command {
        CommandView::BeginTransaction => if reply == Reply::Done {
            Environment { staged: Some(no_rows()), ..env }
        } else {
            env
        },
        CommandView::InsertSubscriber(row) => if reply == Reply::Done {
            match env.staged {
                Some(staged) => Environment { staged: Some(with_subscriber(staged, row)), ..env },
                None => Environment { tables: with_subscriber(env.tables, row), ..env },
            }
        } else {
            env
        },
        CommandView::StoreToken(row) => if reply == Reply::Done {
            match env.staged {
                Some(staged) => Environment { staged: Some(with_token(staged, row)), ..env },
                None => Environment { tables: with_token(env.tables, row), ..env },
            }
        } else {
            env
        },
        CommandView::Commit => match env.staged {
            Some(staged) if reply == Reply::Done => Environment {
                tables: merged(env.tables, staged),
                staged: None,
                ..env
            },
            _ => Environment { staged: None, ..env },
        },
        CommandView::SendEmail(request) => Environment { sent: env.sent.push(request), ..env },
        CommandView::GetSubscriberIdFromToken(_) => env,
        CommandView::ConfirmSubscriber(id) => if reply == Reply::Done {
            Environment { tables: confirmed(env.tables, id), ..env }
        } else {
            env
        },
        CommandView::Respond(_) => Environment { staged: None, ..env },
    }
}

/// The surroundings after the first `k` of `commands` were carried out, each
/// with its reply.
pub open spec fn carried_out(
    env: Environment,
    commands: Seq<CommandView>,
    replies: Seq<Reply>,
    k: nat,
) -> Environment
    decreases k,
{
    if k == 0 {
        env
    } else {
        carry_out(
            carried_out(env, commands, replies, (k - 1) as nat),
            commands[k - 1],
            replies[k - 1],
        )
    }
}

} // verus!
