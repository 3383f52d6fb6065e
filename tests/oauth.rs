use gmail_cleaner::oauth::{
    build_authorization_url, grant_from_reply, token_request, Credentials, TokenFields,
    AUTHORIZATION_CODE_GRANT,
};

fn google_credentials() -> Credentials {
    Credentials {
        client_id: "1234-abc.apps.googleusercontent.com".to_string(),
        client_secret: "SECRET-REDACTED".to_string(),
        auth_uri: "https://accounts.google.com/o/oauth2/v2/auth".to_string(),
        token_uri: "https://oauth2.googleapis.com/token".to_string(),
        redirect_uri: "http://127.0.0.1:5000/oauth2callback".to_string(),
    }
}

fn complete_fields(token: &str) -> TokenFields {
    TokenFields {
        access_token: Some(token.to_string()),
        expires_in: Some(3600),
        scope: Some("https://www.googleapis.com/auth/gmail.readonly".to_string()),
        token_type: Some("Bearer".to_string()),
    }
}

#[test]
fn authorization_url_exact() {
    let url = build_authorization_url(&google_credentials());
    assert_eq!(
        url,
        "https://accounts.google.com/o/oauth2/v2/auth?scope=https%3A%2F%2Fwww.googleapis.com%2Fauth%2Fgmail.readonly&redirect_uri=http%3A%2F%2F127.0.0.1%3A5000%2Foauth2callback&response_type=code&client_id=1234-abc.apps.googleusercontent.com"
    );
}

#[test]
fn authorization_url_has_each_parameter_once() {
    let url = build_authorization_url(&google_credentials());
    let query = url.split_once('?').unwrap().1;
    let keys: Vec<&str> = query.split('&').map(|p| p.split_once('=').unwrap().0).collect();
    assert_eq!(keys, vec!["scope", "redirect_uri", "response_type", "client_id"]);
    assert_eq!(url.matches("response_type=code").count(), 1);
    assert_eq!(url.matches("client_id=").count(), 1);
    assert!(!url.contains("state="));
}

#[test]
fn authorization_url_encodes_non_ascii_redirect() {
    let mut c = google_credentials();
    c.redirect_uri = "http://h/é ~x".to_string();
    let url = build_authorization_url(&c);
    assert!(url.contains("&redirect_uri=http%3A%2F%2Fh%2F%C3%A9%20~x&"));
}

#[test]
fn credentials_need_a_redirect_uri() {
    let none: Vec<String> = vec![];
    let r = Credentials::from_web_record(
        "id".to_string(),
        "secret".to_string(),
        "https://a".to_string(),
        "https://t".to_string(),
        &none,
    );
    assert!(r.is_err());
    let two = vec!["http://first".to_string(), "http://second".to_string()];
    let c = Credentials::from_web_record(
        "id".to_string(),
        "secret".to_string(),
        "https://a".to_string(),
        "https://t".to_string(),
        &two,
    )
    .ok()
    .unwrap();
    assert_eq!(c.redirect_uri, "http://first");
    assert_eq!(c.client_id, "id");
    assert_eq!(c.token_uri, "https://t");
}

#[test]
fn token_request_form_fields() {
    let r = token_request(&google_credentials(), "abc");
    assert_eq!(r.url, "https://oauth2.googleapis.com/token");
    let form: Vec<(&str, &str)> = r.form.iter().map(|(k, v)| (k.as_str(), v.as_str())).collect();
    assert_eq!(
        form,
        vec![
            ("client_id", "1234-abc.apps.googleusercontent.com"),
            ("client_secret", "SECRET-REDACTED"),
            ("code", "abc"),
            ("grant_type", AUTHORIZATION_CODE_GRANT),
            ("redirect_uri", "http://127.0.0.1:5000/oauth2callback"),
        ]
    );
    assert_eq!(AUTHORIZATION_CODE_GRANT, "authorization_code");
}

#[test]
fn complete_reply_grants_token() {
    let g = grant_from_reply(Some(complete_fields("T"))).ok().unwrap();
    assert_eq!(g.access_token, "T");
    assert_eq!(g.expires_in, 3600);
}

#[test]
fn reply_without_access_token_fails() {
    let mut f = complete_fields("T");
    f.access_token = None;
    assert!(grant_from_reply(Some(f)).is_err());
}

#[test]
fn reply_without_other_fields_fails() {
    let mut f = complete_fields("T");
    f.expires_in = None;
    assert!(grant_from_reply(Some(f)).is_err());
    let mut f = complete_fields("T");
    f.scope = None;
    assert!(grant_from_reply(Some(f)).is_err());
    let mut f = complete_fields("T");
    f.token_type = None;
    assert!(grant_from_reply(Some(f)).is_err());
}

#[test]
fn failed_call_fails_exchange() {
    assert!(grant_from_reply(None).is_err());
}
