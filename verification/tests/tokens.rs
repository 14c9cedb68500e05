use drg::config::{Config, Token};
use drg::openid::{apply_refresh, verify_token_validity, TokenAction};

fn stored_config(access: &str, refresh: Option<&str>, expires_at: u64) -> Config {
    Config::new(
        String::from("https://reg.example/"),
        Token {
            access_token: String::from(access),
            refresh_token: refresh.map(String::from),
            expires_at,
        },
        Some(String::from("factory")),
    )
}

#[test]
fn fresh_token_is_used_as_it_stands() {
    let cfg = stored_config("t1", Some("r1"), 1000);
    assert_eq!(verify_token_validity(&cfg.token, 999), TokenAction::UseCurrent);
}

#[test]
fn expired_token_with_refresh_token_is_refreshed() {
    let cfg = stored_config("t1", Some("r1"), 1000);
    assert_eq!(verify_token_validity(&cfg.token, 1000), TokenAction::Refresh);
    assert_eq!(verify_token_validity(&cfg.token, 5000), TokenAction::Refresh);
}

#[test]
fn expired_token_without_refresh_token_demands_login() {
    let cfg = stored_config("t1", None, 1000);
    assert_eq!(verify_token_validity(&cfg.token, 1000), TokenAction::ReLogin);
}

#[test]
fn refreshed_get_uses_the_new_access_token() {
    // An expired access token beside a valid refresh token: the exchange
    // happens first, and the GET that follows carries the new token.
    let cfg = stored_config("stale", Some("r1"), 1000);
    let now: u64 = 2000;
    assert_eq!(verify_token_validity(&cfg.token, now), TokenAction::Refresh);
    let cfg = apply_refresh(cfg, String::from("fresh"), Some(String::from("r2")), 6000);
    assert_eq!(verify_token_validity(&cfg.token, now), TokenAction::UseCurrent);
    let req = drg::apps::read(&cfg, "factory");
    assert_eq!(req.url, "https://reg.example/api/v1/apps/factory");
    assert_eq!(req.bearer_token, "fresh");
}

#[test]
fn refresh_keeps_everything_it_does_not_replace() {
    let cfg = stored_config("stale", Some("r1"), 1000);
    let rotated = apply_refresh(cfg, String::from("fresh"), Some(String::from("r2")), 6000);
    assert_eq!(rotated.token.access_token, "fresh");
    assert_eq!(rotated.token.refresh_token.as_deref(), Some("r2"));
    assert_eq!(rotated.token.expires_at, 6000);
    assert_eq!(rotated.registry_url, "https://reg.example/");
    assert_eq!(rotated.default_app.as_deref(), Some("factory"));

    let cfg = stored_config("stale", Some("r1"), 1000);
    let kept = apply_refresh(cfg, String::from("fresh"), None, 6000);
    assert_eq!(kept.token.refresh_token.as_deref(), Some("r1"));
}
