//! Newsletter subscriptions: registering a subscriber and confirming the
//! subscription through an emailed link.
//!
//! The library decides; it performs no input or output. A request is driven
//! step by step: each step hands out the command that the caller must carry
//! out against the database or the email service, and takes back the reply
//! to the previous one.
//!
//! - `domain`: validated names and email addresses.
//! - `token`: confirmation tokens.
//! - `store`: the rows of the two tables.
//! - `email_client`: the requests to the email service.
//! - `workflow`: commands, replies and responses.
//! - `registration` and `confirmation`: the two workflows.
//! - `model` and `guarantees`: what the commands mean, and what therefore
//!   holds of every request.
//! - `telemetry`: installing the trace subscriber.

pub mod confirmation;
pub mod domain;
pub mod email_client;
pub mod guarantees;
pub mod model;
pub mod registration;
pub mod store;
pub mod telemetry;
pub mod token;
pub mod workflow;
