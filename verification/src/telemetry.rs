//! Installing the subscriber that collects the program's traces.

use tracing::Dispatch;
use tracing_subscriber::util::SubscriberInitExt;
use tracing_subscriber::util::TryInitError;
use vstd::prelude::*;

verus! {

/// A trace dispatcher of `tracing`: a subscriber, ready to be installed.
#[verifier::external_type_specification]
#[verifier::external_body]
pub struct ExDispatch(Dispatch);

/// The error of `tracing_subscriber` for a failed installation.
#[verifier::external_type_specification]
#[verifier::external_body]
pub struct ExTryInitError(TryInitError);

/// Why no subscriber was installed.
#[derive(Clone, Copy, Debug, PartialEq, Eq, Structural)]
pub enum TelemetryError {
    /// The process already has a global subscriber or a global logger.
    AlreadyInstalled,
}

/// `SubscriberInitExt::try_init` makes the dispatcher the global default of
/// the process. Whether it succeeds depends on what was installed before,
/// so nothing is claimed of the result.
#[verifier::external_body]
fn try_init(subscriber: Dispatch) -> (r: Result<(), TryInitError>) {
    subscriber.try_init()
}

/// The filter directives to trace by: those the environment gives, and
/// `fallback` where it gives none.
pub fn filter_directives(from_environment: Option<String>, fallback: &str) -> (directives: String)
    ensures
        directives@ == match from_environment {
            Some(text) => text@,
            None => fallback@,
        },
{
    match from_environment {
        Some(text) => text,
        None => fallback.to_owned(),
    }
}

/// Installs `subscriber` as the global default of the process. Whether
/// that succeeds depends on what the process has installed before; how the
/// attempt is reported is what [`installation_result`] says.
pub fn init_subscriber(subscriber: Dispatch) -> (r: Result<(), TelemetryError>) {
    installation_result(try_init(subscriber))
}

/// What an attempt to install a subscriber comes to: success where the
/// attempt succeeded, and [`TelemetryError::AlreadyInstalled`] where it did
/// not, whatever the error says.
pub fn installation_result(attempt: Result<(), TryInitError>) -> (r: Result<(), TelemetryError>)
    ensures
        r == match attempt {
            Ok(_) => Ok::<(), TelemetryError>(()),
            Err(_) => Err::<(), TelemetryError>(TelemetryError::AlreadyInstalled),
        },
{
    match attempt {
        Ok(()) => Ok(()),
        Err(_) => Err(TelemetryError::AlreadyInstalled),
    }
}

} // verus!
