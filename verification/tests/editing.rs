use drg::arguments::Params;
use drg::config::{Config, Token};
use drg::editflow::{FetchStep, SubmitStep};
use drg::errors::{CliError, ValidationKind};
use drg::request::Method;
use drg::router::{dispatch, Action};

fn edit_config() -> Config {
    Config::new(
        String::from("https://reg.example/"),
        Token {
            access_token: String::from("bearer-token"),
            refresh_token: None,
            expires_at: 100,
        },
        None,
    )
}

#[test]
fn edit_fetches_then_submits_the_text_verbatim() {
    let cfg = edit_config();
    let flow = drg::devices::edit(&cfg, "factory", "sensor1");
    let fetch = flow.fetch_request();
    assert_eq!(fetch.method, Method::Get);
    assert_eq!(fetch.url, "https://reg.example/api/v1/apps/factory/devices/sensor1");
    assert_eq!(fetch.bearer_token, "bearer-token");

    let fetched = String::from("{\"spec\":{\"temp\":1}}");
    let flow = match flow.on_fetch_response(200, fetched.clone()) {
        FetchStep::Editor(f) => f,
        FetchStep::Fatal(code) => panic!("fetch of 200 was fatal with code {}", code),
    };
    assert_eq!(flow.fetched_body(), &fetched);

    let edited = String::from("{\"spec\":{\"temp\":2}}");
    match flow.on_editor_result(edited.clone()) {
        SubmitStep::Submit(req) => {
            assert_eq!(req.method, Method::Put);
            assert_eq!(req.url, fetch.url);
            assert!(req.content_type_json);
            assert_eq!(req.body.as_ref(), Some(&edited));
        }
        SubmitStep::Invalid(e) => panic!("valid JSON rejected: {:?}", e),
    }
}

#[test]
fn noop_edit_submits_the_fetched_body_byte_for_byte() {
    let cfg = edit_config();
    let flow = drg::apps::edit(&cfg, "factory");
    let fetched = String::from("{ \"spec\": {\"x\": [1, 2]} }\n");
    let flow = match flow.on_fetch_response(200, fetched.clone()) {
        FetchStep::Editor(f) => f,
        FetchStep::Fatal(code) => panic!("fetch of 200 was fatal with code {}", code),
    };
    let back = flow.fetched_body().clone();
    match flow.on_editor_result(back) {
        SubmitStep::Submit(req) => assert_eq!(req.body.as_ref(), Some(&fetched)),
        SubmitStep::Invalid(e) => panic!("valid JSON rejected: {:?}", e),
    }
}

#[test]
fn failed_fetch_is_fatal_with_exit_code_2() {
    let cfg = edit_config();
    for status in [404u16, 500, 201, 0] {
        let flow = drg::devices::edit(&cfg, "factory", "sensor1");
        match flow.on_fetch_response(status, String::from("ignored")) {
            FetchStep::Fatal(code) => assert_eq!(code, 2),
            FetchStep::Editor(_) => panic!("status {} must not reach the editor", status),
        }
    }
}

#[test]
fn malformed_edited_text_is_a_recoverable_error() {
    let cfg = edit_config();
    let flow = drg::devices::edit(&cfg, "factory", "sensor1");
    let flow = match flow.on_fetch_response(200, String::from("{}")) {
        FetchStep::Editor(f) => f,
        FetchStep::Fatal(code) => panic!("fetch of 200 was fatal with code {}", code),
    };
    match flow.on_editor_result(String::from("{oops")) {
        SubmitStep::Invalid(e) => {
            assert_eq!(e, CliError::ValidationError { kind: ValidationKind::InvalidPayload });
        }
        SubmitStep::Submit(_) => panic!("malformed text must not be submitted"),
    }
}

#[test]
fn direct_update_carries_the_text_verbatim() {
    let cfg = edit_config();
    let text = String::from("{\"spec\": {\"temp\": 3}}");
    match drg::devices::put(&cfg, "factory", "sensor1", text.clone()) {
        Ok(req) => {
            assert_eq!(req.method, Method::Put);
            assert_eq!(req.url, "https://reg.example/api/v1/apps/factory/devices/sensor1");
            assert_eq!(req.body.as_ref(), Some(&text));
        }
        Err(e) => panic!("valid JSON rejected: {:?}", e),
    }
    match drg::apps::put(&cfg, "factory", text.clone()) {
        Ok(req) => {
            assert_eq!(req.method, Method::Put);
            assert_eq!(req.url, "https://reg.example/api/v1/apps/factory");
            assert_eq!(req.body.as_ref(), Some(&text));
        }
        Err(e) => panic!("valid JSON rejected: {:?}", e),
    }
    match drg::apps::put(&cfg, "factory", String::from("not json")) {
        Err(CliError::ValidationError { kind: ValidationKind::InvalidPayload }) => {}
        Ok(_) => panic!("malformed text must be rejected"),
        Err(e) => panic!("wrong error: {:?}", e),
    }
}

#[test]
fn routed_edit_starts_at_the_item_fetch() {
    let cfg = edit_config();
    let params = Params {
        id: Some(String::from("sensor1")),
        data: None,
        app: Some(String::from("factory")),
        filename: None,
        url: None,
        config_path: None,
        command: None,
    };
    match dispatch("edit", "device", &params, &cfg) {
        Ok(Action::EditInteractive(flow)) => {
            let fetch = flow.fetch_request();
            assert_eq!(fetch.method, Method::Get);
            assert_eq!(fetch.url, "https://reg.example/api/v1/apps/factory/devices/sensor1");
        }
        Ok(Action::Perform(_)) => panic!("edit must run the interactive flow"),
        Err(e) => panic!("edit was rejected: {:?}", e),
    }
}
