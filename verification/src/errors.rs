//! The error taxonomy of the client, and how each failure maps to an exit code.
//!
//! Pre-flight failures (configuration, authentication, transport, validation
//! and unknown commands) exit with code 2; an operation the server rejected
//! exits with code 3; success exits with code 0.

use vstd::prelude::*;

verus! {

/// Why an invocation was rejected before any network call.
#[derive(Clone, Copy, Debug, PartialEq, Eq, Structural)]
pub enum ValidationKind {
    /// No resource id was given, or it was empty.
    MissingId,
    /// A device operation had no `--app` flag and no configured default app.
    MissingApp,
    /// The payload text is not well-formed JSON.
    InvalidPayload,
}

/// Every failure the client distinguishes.
#[derive(Clone, Copy, Debug, PartialEq, Eq, Structural)]
pub enum CliError {
    /// The configuration is missing or unreadable.
    ConfigError,
    /// The token is invalid and could not be refreshed; a new login is needed.
    AuthError,
    /// Connection, name resolution or TLS failure.
    TransportError,
    /// The server answered with a non-success status.
    ServerError { status: u16 },
    /// The invocation was rejected locally, before any network call.
    ValidationError { kind: ValidationKind },
    /// The verb or resource token names nothing in the closed command set.
    UnknownCommand,
}

/// The process exit code that a failure maps to: 3 for an operation the
/// server rejected, 2 for every pre-flight or transport failure.
pub open spec fn spec_exit_code(e: CliError) -> u8 {
    match e {
        CliError::ServerError { .. } => 3u8,
        _ => 2u8,
    }
}

pub fn exit_code(e: &CliError) -> (c: u8)
    ensures
        c == spec_exit_code(*e),
{
    match e {
        CliError::ServerError { .. } => 3,
        _ => 2,
    }
}

/// Whether an HTTP status reports success.
pub open spec fn spec_is_success(status: u16) -> bool {
    200 <= status < 300
}

/// Classifies the status of a completed resource call: any 2xx status is
/// success, anything else is an error carrying the server's status.
pub fn response_outcome(status: u16) -> (r: Result<(), CliError>)
    ensures
        r is Ok <==> spec_is_success(status),
        !spec_is_success(status) ==> r == Result::<(), CliError>::Err(
            CliError::ServerError { status },
        ),
{
    if 200 <= status && status < 300 {
        Ok(())
    } else {
        Err(CliError::ServerError { status })
    }
}

/// A short human-readable account of a failure. Never empty.
pub fn error_message(e: &CliError) -> (m: String)
    ensures
        m@.len() > 0,
        e matches CliError::ValidationError { kind: ValidationKind::MissingApp } ==> m@
            =~= "Missing app argument and no default app specified in config file."@,
{
    match e {
        CliError::ConfigError => {
            proof {
                reveal_strlit("Error opening the configuration file.");
            }
            "Error opening the configuration file.".to_owned()
        },
        CliError::AuthError => {
            proof {
                reveal_strlit("The token could not be refreshed, please log in again.");
            }
            "The token could not be refreshed, please log in again.".to_owned()
        },
        CliError::TransportError => {
            proof {
                reveal_strlit("Could not reach the registry.");
            }
            "Could not reach the registry.".to_owned()
        },
        CliError::ServerError { .. } => {
            proof {
                reveal_strlit("The server rejected the operation.");
            }
            "The server rejected the operation.".to_owned()
        },
        CliError::ValidationError { kind } => match kind {
            ValidationKind::MissingId => {
                proof {
                    reveal_strlit("Missing resource id.");
                }
                "Missing resource id.".to_owned()
            },
            ValidationKind::MissingApp => {
                proof {
                    reveal_strlit(
                        "Missing app argument and no default app specified in config file.",
                    );
                }
                "Missing app argument and no default app specified in config file.".to_owned()
            },
            ValidationKind::InvalidPayload => {
                proof {
                    reveal_strlit("Invalid JSON payload.");
                }
                "Invalid JSON payload.".to_owned()
            },
        },
        CliError::UnknownCommand => {
            proof {
                reveal_strlit("Unknown command.");
            }
            "Unknown command.".to_owned()
        },
    }
}

} // verus!
