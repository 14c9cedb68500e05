//! Requests that manage app resources: the collection lives at
//! `{base}api/v1/apps` and an item at `{base}api/v1/apps/{app}`.

use vstd::prelude::*;
use vstd::string::StringExecFns;
use crate::config::Config;
use crate::editflow::EditFlow;
use crate::errors::{CliError, ValidationKind};
use crate::payload::{escape_json, escape_json_text, json_parse_ok, json_wf};
use crate::request::{
    delete_request_v, get_request_v, post_request_v, put_request_v, HttpRequest, Method,
};

verus! {

/// The URL of the app collection.
pub open spec fn app_collection_url_v(base: Seq<char>) -> Seq<char> {
    base + "api/v1/apps"@
}

/// The URL of one app item.
pub open spec fn app_item_url_v(base: Seq<char>, app: Seq<char>) -> Seq<char> {
    base + "api/v1/apps/"@ + app
}

/// The creation body: the app's name under `metadata` and the caller's
/// payload under `spec`.
pub open spec fn app_create_body_v(app: Seq<char>, data: Seq<char>) -> Seq<char> {
    "{\"metadata\":{\"name\":\""@ + escape_json(app) + "\"},\"spec\":"@ + data + "}"@
}

/// Builds the URL of one app item.
pub fn craft_url(base: &String, app_id: &str) -> (url: String)
    ensures
        url@ == app_item_url_v(base@, app_id@),
{
    let mut url = base.clone();
    url.append("api/v1/apps/");
    url.append(app_id);
    proof {
        assert(url@ =~= app_item_url_v(base@, app_id@));
    }
    url
}

fn craft_collection_url(base: &String) -> (url: String)
    ensures
        url@ == app_collection_url_v(base@),
{
    let mut url = base.clone();
    url.append("api/v1/apps");
    proof {
        assert(url@ =~= app_collection_url_v(base@));
    }
    url
}

/// The authenticated GET that reads one app.
pub fn read(config: &Config, app_id: &str) -> (req: HttpRequest)
    requires
        app_id@.len() > 0,
    ensures
        req@ == get_request_v(
            app_item_url_v(config@.registry_url, app_id@),
            config@.token.access_token,
        ),
{
    HttpRequest {
        method: Method::Get,
        url: craft_url(&config.registry_url, app_id),
        bearer_token: config.token.access_token.clone(),
        content_type_json: false,
        body: None,
    }
}

/// The authenticated DELETE of one app. Whatever status the server reports
/// for an absent app is passed through unchanged.
pub fn delete(config: &Config, app_id: &str) -> (req: HttpRequest)
    requires
        app_id@.len() > 0,
    ensures
        req@ == delete_request_v(
            app_item_url_v(config@.registry_url, app_id@),
            config@.token.access_token,
        ),
{
    HttpRequest {
        method: Method::Delete,
        url: craft_url(&config.registry_url, app_id),
        bearer_token: config.token.access_token.clone(),
        content_type_json: false,
        body: None,
    }
}

/// The authenticated POST that creates an app. A payload that is not
/// well-formed JSON is rejected before any request exists.
pub fn create(config: &Config, app_id: &str, data: &str) -> (r: Result<HttpRequest, CliError>)
    requires
        app_id@.len() > 0,
    ensures
        json_wf(data@) ==> (r matches Ok(req) && req@ == post_request_v(
            app_collection_url_v(config@.registry_url),
            config@.token.access_token,
            app_create_body_v(app_id@, data@),
        )),
        !json_wf(data@) ==> r == Result::<HttpRequest, CliError>::Err(
            CliError::ValidationError { kind: ValidationKind::InvalidPayload },
        ),
{
    if !json_parse_ok(data) {
        return Err(CliError::ValidationError { kind: ValidationKind::InvalidPayload });
    }
    let mut body = String::new();
    body.append("{\"metadata\":{\"name\":\"");
    let escaped_app = escape_json_text(app_id);
    body.append(escaped_app.as_str());
    body.append("\"},\"spec\":");
    body.append(data);
    body.append("}");
    proof {
        assert(body@ =~= app_create_body_v(app_id@, data@));
    }
    Ok(
        HttpRequest {
            method: Method::Post,
            url: craft_collection_url(&config.registry_url),
            bearer_token: config.token.access_token.clone(),
            content_type_json: true,
            body: Some(body),
        },
    )
}

/// The authenticated PUT that overwrites one app with the given text,
/// verbatim, provided the text is well-formed JSON.
pub fn put(config: &Config, app_id: &str, data: String) -> (r: Result<HttpRequest, CliError>)
    requires
        app_id@.len() > 0,
    ensures
        json_wf(data@) ==> (r matches Ok(req) && req@ == put_request_v(
            app_item_url_v(config@.registry_url, app_id@),
            config@.token.access_token,
            data@,
        )),
        !json_wf(data@) ==> r == Result::<HttpRequest, CliError>::Err(
            CliError::ValidationError { kind: ValidationKind::InvalidPayload },
        ),
{
    if !json_parse_ok(data.as_str()) {
        return Err(CliError::ValidationError { kind: ValidationKind::InvalidPayload });
    }
    Ok(
        HttpRequest {
            method: Method::Put,
            url: craft_url(&config.registry_url, app_id),
            bearer_token: config.token.access_token.clone(),
            content_type_json: true,
            body: Some(data),
        },
    )
}

/// Begins the interactive edit of one app.
pub fn edit(config: &Config, app_id: &str) -> (f: EditFlow)
    requires
        app_id@.len() > 0,
    ensures
        f@.item_url == app_item_url_v(config@.registry_url, app_id@),
        f@.bearer_token == config@.token.access_token,
        f@.phase is Fetching,
        f@.wf(),
{
    EditFlow::start(craft_url(&config.registry_url, app_id), config.token.access_token.clone())
}

} // verus!
