//! The command router: maps a (verb, resource) pair of tokens and the
//! parameter bag to exactly one operation, or rejects the invocation before
//! any request exists.

use vstd::prelude::*;
use crate::apps;
use crate::arguments::{
    spec_get_app_id, spec_resource_from_str, spec_verb_from_str, Params, ParamsV, Resources, Verbs,
};
use crate::config::{Config, ConfigV};
use crate::devices;
use crate::editflow::{EditFlow, EditFlowV, EditPhaseV};
use crate::errors::{CliError, ValidationKind};
use crate::payload::json_wf;
use crate::request::{
    delete_request_v, get_request_v, post_request_v, HttpRequest, HttpRequestV,
};

verus! {

/// What a routed invocation performs: one request, or the interactive edit
/// flow, which performs its fetch and then its submission.
pub enum Action {
    Perform(HttpRequest),
    EditInteractive(EditFlow),
}

/// The mathematical value of an [`Action`].
pub enum ActionV {
    Perform(HttpRequestV),
    EditInteractive(EditFlowV),
}

impl View for Action {
    type V = ActionV;

    open spec fn view(&self) -> ActionV {
        match self {
            Action::Perform(r) => ActionV::Perform(r@),
            Action::EditInteractive(f) => ActionV::EditInteractive(f@),
        }
    }
}

/// The payload an invocation carries: the `--data` flag, or the empty
/// JSON document when none was given.
pub open spec fn spec_payload(p: ParamsV) -> Seq<char> {
    match p.data {
        Some(d) => d,
        None => "{}"@,
    }
}

/// The operation selected for a verb on an app, once the id is known to be
/// present and non-empty.
pub open spec fn spec_dispatch_app(v: Verbs, id: Seq<char>, p: ParamsV, c: ConfigV) -> Result<
    ActionV,
    CliError,
> {
    match v {
        Verbs::get => Ok(
            ActionV::Perform(
                get_request_v(apps::app_item_url_v(c.registry_url, id), c.token.access_token),
            ),
        ),
        Verbs::delete => Ok(
            ActionV::Perform(
                delete_request_v(apps::app_item_url_v(c.registry_url, id), c.token.access_token),
            ),
        ),
        Verbs::create => if json_wf(spec_payload(p)) {
            Ok(
                ActionV::Perform(
                    post_request_v(
                        apps::app_collection_url_v(c.registry_url),
                        c.token.access_token,
                        apps::app_create_body_v(id, spec_payload(p)),
                    ),
                ),
            )
        } else {
            Err(CliError::ValidationError { kind: ValidationKind::InvalidPayload })
        },
        Verbs::edit => Ok(
            ActionV::EditInteractive(
                EditFlowV {
                    item_url: apps::app_item_url_v(c.registry_url, id),
                    bearer_token: c.token.access_token,
                    phase: EditPhaseV::Fetching,
                },
            ),
        ),
    }
}

/// The operation selected for a verb on a device, once both the id and the
/// owning app are known to be present and non-empty.
pub open spec fn spec_dispatch_device(
    v: Verbs,
    id: Seq<char>,
    app: Seq<char>,
    p: ParamsV,
    c: ConfigV,
) -> Result<ActionV, CliError> {
    match v {
        Verbs::get => Ok(
            ActionV::Perform(
                get_request_v(
                    devices::device_item_url_v(c.registry_url, app, id),
                    c.token.access_token,
                ),
            ),
        ),
        Verbs::delete => Ok(
            ActionV::Perform(
                delete_request_v(
                    devices::device_item_url_v(c.registry_url, app, id),
                    c.token.access_token,
                ),
            ),
        ),
        Verbs::create => if json_wf(spec_payload(p)) {
            Ok(
                ActionV::Perform(
                    post_request_v(
                        devices::device_collection_url_v(c.registry_url, app),
                        c.token.access_token,
                        devices::device_create_body_v(id, app, spec_payload(p)),
                    ),
                ),
            )
        } else {
            Err(CliError::ValidationError { kind: ValidationKind::InvalidPayload })
        },
        Verbs::edit => Ok(
            ActionV::EditInteractive(
                EditFlowV {
                    item_url: devices::device_item_url_v(c.registry_url, app, id),
                    bearer_token: c.token.access_token,
                    phase: EditPhaseV::Fetching,
                },
            ),
        ),
    }
}

/// The operation a known (verb, resource) pair selects, after the local
/// validations: the id must be present and non-empty, and a device
/// operation must resolve its owning app.
pub open spec fn spec_dispatch_pair(v: Verbs, r: Resources, p: ParamsV, c: ConfigV) -> Result<
    ActionV,
    CliError,
> {
    match p.id {
        None => Err(CliError::ValidationError { kind: ValidationKind::MissingId }),
        Some(id) => if id.len() == 0 {
            Err(CliError::ValidationError { kind: ValidationKind::MissingId })
        } else {
            match r {
                Resources::app => spec_dispatch_app(v, id, p, c),
                Resources::device => match spec_get_app_id(p.app, c.default_app) {
                    Err(e) => Err(e),
                    Ok(app) => if app.len() == 0 {
                        Err(CliError::ValidationError { kind: ValidationKind::MissingApp })
                    } else {
                        spec_dispatch_device(v, id, app, p, c)
                    },
                },
            }
        },
    }
}

/// The whole routing decision, from the raw tokens: a pair outside the
/// closed command set is an unknown command; a pair inside it selects its
/// one operation, subject to the local validations.
pub open spec fn spec_dispatch(
    verb: Seq<char>,
    resource: Seq<char>,
    p: ParamsV,
    c: ConfigV,
) -> Result<ActionV, CliError> {
    match (spec_verb_from_str(verb), spec_resource_from_str(resource)) {
        (Some(v), Some(r)) => spec_dispatch_pair(v, r, p, c),
        _ => Err(CliError::UnknownCommand),
    }
}

/// Routes one invocation. Everything the router rejects is rejected here,
/// locally: no request value exists for a rejected invocation, so nothing
/// can reach the network.
pub fn dispatch(verb_tok: &str, resource_tok: &str, params: &Params, config: &Config) -> (r:
    Result<Action, CliError>)
    ensures
        r matches Ok(a) ==> spec_dispatch(verb_tok@, resource_tok@, params@, config@) == Ok::<
            ActionV,
            CliError,
        >(a@),
        r matches Err(e) ==> spec_dispatch(verb_tok@, resource_tok@, params@, config@) == Err::<
            ActionV,
            CliError,
        >(e),
{
    let verb = match Verbs::from_str(verb_tok) {
        Some(v) => v,
        None => {
            return Err(CliError::UnknownCommand);
        },
    };
    let resource = match Resources::from_str(resource_tok) {
        Some(r) => r,
        None => {
            return Err(CliError::UnknownCommand);
        },
    };
    let id = match &params.id {
        Some(i) => i,
        None => {
            return Err(CliError::ValidationError { kind: ValidationKind::MissingId });
        },
    };
    if id.as_str().is_empty() {
        return Err(CliError::ValidationError { kind: ValidationKind::MissingId });
    }
    let payload: &str = match &params.data {
        Some(d) => d.as_str(),
        None => "{}",
    };
    match resource {
        Resources::app => match verb {
            Verbs::get => Ok(Action::Perform(apps::read(config, id.as_str()))),
            Verbs::delete => Ok(Action::Perform(apps::delete(config, id.as_str()))),
            Verbs::create => match apps::create(config, id.as_str(), payload) {
                Ok(req) => Ok(Action::Perform(req)),
                Err(e) => Err(e),
            },
            Verbs::edit => Ok(Action::EditInteractive(apps::edit(config, id.as_str()))),
        },
        Resources::device => {
            let app = match crate::arguments::get_app_id(params, config) {
                Ok(a) => a,
                Err(e) => {
                    return Err(e);
                },
            };
            if app.as_str().is_empty() {
                return Err(CliError::ValidationError { kind: ValidationKind::MissingApp });
            }
            match verb {
                Verbs::get => Ok(
                    Action::Perform(devices::read(config, app.as_str(), id.as_str())),
                ),
                Verbs::delete => Ok(
                    Action::Perform(devices::delete(config, app.as_str(), id.as_str())),
                ),
                Verbs::create => match devices::create(
                    config,
                    id.as_str(),
                    payload,
                    app.as_str(),
                ) {
                    Ok(req) => Ok(Action::Perform(req)),
                    Err(e) => Err(e),
                },
                Verbs::edit => Ok(
                    Action::EditInteractive(devices::edit(config, app.as_str(), id.as_str())),
                ),
            }
        },
    }
}

/// Whether an action is the one operation of its (verb, resource) pair:
/// `get` reads with GET, `create` writes the collection with POST, `delete`
/// removes the item with DELETE, and `edit` runs the interactive flow.
pub open spec fn action_matches_pair(a: ActionV, v: Verbs, r: Resources) -> bool {
    match a {
        ActionV::Perform(req) => match v {
            Verbs::get => req.method is Get,
            Verbs::delete => req.method is Delete,
            Verbs::create => req.method is Post,
            Verbs::edit => false,
        },
        ActionV::EditInteractive(f) => v is edit && f.phase is Fetching,
    }
}

/// Exactly one handler per pair of the closed command set: tokens outside
/// it are rejected as an unknown command, and tokens inside it either fail
/// a local validation or select precisely the operation of their pair.
pub proof fn lemma_exactly_one_handler(verb: Seq<char>, resource: Seq<char>, p: ParamsV, c: ConfigV)
    ensures
        (spec_verb_from_str(verb) is None || spec_resource_from_str(resource) is None) <==>
            spec_dispatch(verb, resource, p, c) == Err::<ActionV, CliError>(
            CliError::UnknownCommand,
        ),
        spec_dispatch(verb, resource, p, c) matches Ok(a) ==> (match (
            spec_verb_from_str(verb),
            spec_resource_from_str(resource),
        ) {
            (Some(v), Some(r)) => action_matches_pair(a, v, r),
            _ => false,
        }),
{
    match (spec_verb_from_str(verb), spec_resource_from_str(resource)) {
        (Some(v), Some(r)) => {
            assert(spec_dispatch_pair(v, r, p, c) != Err::<ActionV, CliError>(
                CliError::UnknownCommand,
            ));
            match spec_dispatch_pair(v, r, p, c) {
                Ok(a) => {
                    assert(action_matches_pair(a, v, r));
                },
                Err(_) => {
                },
            }
        },
        _ => {
        },
    }
}

/// A device operation with no `--app` flag and no configured default app
/// fails with the missing-app validation error — whatever the verb, and
/// before any request value exists.
pub proof fn lemma_device_needs_app(verb: Seq<char>, p: ParamsV, c: ConfigV)
    requires
        spec_verb_from_str(verb) is Some,
        p.app is None,
        c.default_app is None,
        p.id matches Some(id) && id.len() > 0,
    ensures
        spec_dispatch(verb, "device"@, p, c) == Err::<ActionV, CliError>(
            CliError::ValidationError { kind: ValidationKind::MissingApp },
        ),
{
}

} // verus!
