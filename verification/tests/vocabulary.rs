use drg::arguments::{Other_commands, Parameters, Resources, Verbs};
use drg::errors::{error_message, exit_code, response_outcome, CliError, ValidationKind};

#[test]
fn verbs_parse_exactly_their_tokens() {
    assert_eq!(Verbs::from_str("create"), Some(Verbs::create));
    assert_eq!(Verbs::from_str("delete"), Some(Verbs::delete));
    assert_eq!(Verbs::from_str("edit"), Some(Verbs::edit));
    assert_eq!(Verbs::from_str("get"), Some(Verbs::get));
    assert_eq!(Verbs::from_str("Get"), None);
    assert_eq!(Verbs::from_str("gets"), None);
    assert_eq!(Verbs::from_str(""), None);
}

#[test]
fn resources_parse_exactly_their_tokens() {
    assert_eq!(Resources::from_str("device"), Some(Resources::device));
    assert_eq!(Resources::from_str("app"), Some(Resources::app));
    assert_eq!(Resources::from_str("apps"), None);
    assert_eq!(Resources::from_str(""), None);
}

#[test]
fn tokens_round_trip_through_their_names() {
    for v in [Verbs::create, Verbs::delete, Verbs::edit, Verbs::get] {
        assert_eq!(Verbs::from_str(v.as_str()), Some(v));
    }
    for r in [Resources::device, Resources::app] {
        assert_eq!(Resources::from_str(r.as_str()), Some(r));
    }
}

#[test]
fn flag_and_command_names_are_stable() {
    assert_eq!(Parameters::url.as_str(), "url");
    assert_eq!(Parameters::id.as_str(), "id");
    assert_eq!(Parameters::data.as_str(), "data");
    assert_eq!(Parameters::config.as_str(), "config");
    assert_eq!(Parameters::filename.as_str(), "filename");
    assert_eq!(Parameters::command.as_str(), "command");
    assert_eq!(Other_commands::login.as_str(), "login");
    assert_eq!(Other_commands::token.as_str(), "token");
    assert_eq!(Other_commands::version.as_str(), "version");
    assert_eq!(Other_commands::send.as_str(), "send");
}

#[test]
fn success_is_exactly_the_2xx_statuses() {
    assert!(response_outcome(200).is_ok());
    assert!(response_outcome(201).is_ok());
    assert!(response_outcome(299).is_ok());
    assert_eq!(response_outcome(199), Err(CliError::ServerError { status: 199 }));
    assert_eq!(response_outcome(300), Err(CliError::ServerError { status: 300 }));
    assert_eq!(response_outcome(404), Err(CliError::ServerError { status: 404 }));
}

#[test]
fn only_server_rejections_exit_with_3() {
    assert_eq!(exit_code(&CliError::ServerError { status: 409 }), 3);
    assert_eq!(exit_code(&CliError::ConfigError), 2);
    assert_eq!(exit_code(&CliError::AuthError), 2);
    assert_eq!(exit_code(&CliError::TransportError), 2);
    assert_eq!(exit_code(&CliError::UnknownCommand), 2);
    assert_eq!(
        exit_code(&CliError::ValidationError { kind: ValidationKind::InvalidPayload }),
        2
    );
}

#[test]
fn every_error_has_a_message() {
    let errors = [
        CliError::ConfigError,
        CliError::AuthError,
        CliError::TransportError,
        CliError::ServerError { status: 500 },
        CliError::ValidationError { kind: ValidationKind::MissingId },
        CliError::ValidationError { kind: ValidationKind::MissingApp },
        CliError::ValidationError { kind: ValidationKind::InvalidPayload },
        CliError::UnknownCommand,
    ];
    for e in errors {
        assert!(!error_message(&e).is_empty());
    }
}
