//! Requests that manage device resources. A device always belongs to
//! exactly one app, so every path here carries the parent app id:
//! the collection lives at `{base}api/v1/apps/{app}/devices` and an item at
//! `{base}api/v1/apps/{app}/devices/{device}`.

use vstd::prelude::*;
use vstd::string::StringExecFns;
use crate::config::Config;
use crate::editflow::EditFlow;
use crate::errors::{CliError, ValidationKind};
use crate::payload::{escape_json, escape_json_text, json_parse_ok, json_wf};
use crate::request::{
    delete_request_v, get_request_v, post_request_v, put_request_v, HttpRequest, Method,
};

verus! {

/// The URL of the device collection under one app.
pub open spec fn device_collection_url_v(base: Seq<char>, app: Seq<char>) -> Seq<char> {
    base + "api/v1/apps/"@ + app + "/devices"@
}

/// The URL of one device item.
pub open spec fn device_item_url_v(base: Seq<char>, app: Seq<char>, device: Seq<char>) -> Seq<
    char,
> {
    base + "api/v1/apps/"@ + app + "/devices/"@ + device
}

/// The creation body: the device's identity under `metadata` (its name and
/// the app that owns it) and the caller's payload under `spec`, whatever
/// that payload holds.
pub open spec fn device_create_body_v(device: Seq<char>, app: Seq<char>, data: Seq<char>) -> Seq<
    char,
> {
    "{\"metadata\":{\"name\":\""@ + escape_json(device) + "\",\"application\":\""@ + escape_json(
        app,
    ) + "\"},\"spec\":"@ + data + "}"@
}

/// Builds the URL of one device item.
pub fn craft_url(base: &String, app_id: &str, device_id: &str) -> (url: String)
    ensures
        url@ == device_item_url_v(base@, app_id@, device_id@),
{
    let mut url = base.clone();
    url.append("api/v1/apps/");
    url.append(app_id);
    url.append("/devices/");
    url.append(device_id);
    proof {
        assert(url@ =~= device_item_url_v(base@, app_id@, device_id@));
    }
    url
}

fn craft_collection_url(base: &String, app_id: &str) -> (url: String)
    ensures
        url@ == device_collection_url_v(base@, app_id@),
{
    let mut url = base.clone();
    url.append("api/v1/apps/");
    url.append(app_id);
    url.append("/devices");
    proof {
        assert(url@ =~= device_collection_url_v(base@, app_id@));
    }
    url
}

/// The authenticated GET that reads one device.
pub fn read(config: &Config, app: &str, device_id: &str) -> (req: HttpRequest)
    requires
        app@.len() > 0,
        device_id@.len() > 0,
    ensures
        req@ == get_request_v(
            device_item_url_v(config@.registry_url, app@, device_id@),
            config@.token.access_token,
        ),
{
    HttpRequest {
        method: Method::Get,
        url: craft_url(&config.registry_url, app, device_id),
        bearer_token: config.token.access_token.clone(),
        content_type_json: false,
        body: None,
    }
}

/// The authenticated DELETE of one device. Whatever status the server
/// reports for an absent device is passed through unchanged.
pub fn delete(config: &Config, app: &str, device_id: &str) -> (req: HttpRequest)
    requires
        app@.len() > 0,
        device_id@.len() > 0,
    ensures
        req@ == delete_request_v(
            device_item_url_v(config@.registry_url, app@, device_id@),
            config@.token.access_token,
        ),
{
    HttpRequest {
        method: Method::Delete,
        url: craft_url(&config.registry_url, app, device_id),
        bearer_token: config.token.access_token.clone(),
        content_type_json: false,
        body: None,
    }
}

/// The authenticated POST that creates a device: the body pairs the device
/// id and owning app under `metadata` with the payload under `spec`.
/// A payload that is not well-formed JSON is rejected before any request
/// exists.
pub fn create(config: &Config, device_id: &str, data: &str, app_id: &str) -> (r: Result<
    HttpRequest,
    CliError,
>)
    requires
        device_id@.len() > 0,
        app_id@.len() > 0,
    ensures
        json_wf(data@) ==> (r matches Ok(req) && req@ == post_request_v(
            device_collection_url_v(config@.registry_url, app_id@),
            config@.token.access_token,
            device_create_body_v(device_id@, app_id@, data@),
        )),
        !json_wf(data@) ==> r == Result::<HttpRequest, CliError>::Err(
            CliError::ValidationError { kind: ValidationKind::InvalidPayload },
        ),
{
    if !json_parse_ok(data) {
        return Err(CliError::ValidationError { kind: ValidationKind::InvalidPayload });
    }
    let mut body = String::new();
    body.append("{\"metadata\":{\"name\":\"");
    let escaped_device = escape_json_text(device_id);
    body.append(escaped_device.as_str());
    body.append("\",\"application\":\"");
    let escaped_app = escape_json_text(app_id);
    body.append(escaped_app.as_str());
    body.append("\"},\"spec\":");
    body.append(data);
    body.append("}");
    proof {
        assert(body@ =~= device_create_body_v(device_id@, app_id@, data@));
    }
    Ok(
        HttpRequest {
            method: Method::Post,
            url: craft_collection_url(&config.registry_url, app_id),
            bearer_token: config.token.access_token.clone(),
            content_type_json: true,
            body: Some(body),
        },
    )
}

/// The authenticated PUT that overwrites one device with the given text,
/// verbatim, provided the text is well-formed JSON.
pub fn put(config: &Config, app: &str, device_id: &str, data: String) -> (r: Result<
    HttpRequest,
    CliError,
>)
    requires
        app@.len() > 0,
        device_id@.len() > 0,
    ensures
        json_wf(data@) ==> (r matches Ok(req) && req@ == put_request_v(
            device_item_url_v(config@.registry_url, app@, device_id@),
            config@.token.access_token,
            data@,
        )),
        !json_wf(data@) ==> r == Result::<HttpRequest, CliError>::Err(
            CliError::ValidationError { kind: ValidationKind::InvalidPayload },
        ),
{
    if !json_parse_ok(data.as_str()) {
        return Err(CliError::ValidationError { kind: ValidationKind::InvalidPayload });
    }
    Ok(
        HttpRequest {
            method: Method::Put,
            url: craft_url(&config.registry_url, app, device_id),
            bearer_token: config.token.access_token.clone(),
            content_type_json: true,
            body: Some(data),
        },
    )
}

/// Begins the interactive edit of one device: the flow's mandatory fetch
/// reads the item, and its submission overwrites it.
pub fn edit(config: &Config, app: &str, device_id: &str) -> (f: EditFlow)
    requires
        app@.len() > 0,
        device_id@.len() > 0,
    ensures
        f@.item_url == device_item_url_v(config@.registry_url, app@, device_id@),
        f@.bearer_token == config@.token.access_token,
        f@.phase is Fetching,
        f@.wf(),
{
    EditFlow::start(
        craft_url(&config.registry_url, app, device_id),
        config.token.access_token.clone(),
    )
}

} // verus!
