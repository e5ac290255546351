use onedrive_api::api::{Method, RequestBody};
use onedrive_api::auth::{Auth, ClientCredential, Permission, Tenant, TokenResponse};
use onedrive_api::authorization::{AuthClient, Permission as LegacyPermission};

fn pairs(v: &[(&str, &str)]) -> Vec<(String, String)> {
    v.iter().map(|(a, b)| (a.to_string(), b.to_string())).collect()
}

fn text(body: &RequestBody) -> &str {
    match body {
        RequestBody::Text(s) => s.as_str(),
        other => panic!("not a text body: {:?}", other),
    }
}

#[test]
fn scope_strings() {
    assert_eq!(Permission::new_read().to_scope_string(), "files.read");
    assert_eq!(
        Permission::new_read().write(true).access_shared(true).offline_access(true).to_scope_string(),
        "files.readwrite.all offline_access",
    );
}

#[test]
fn tenants_and_getters() {
    assert_eq!(Tenant::Common.to_issuer(), "common");
    assert_eq!(Tenant::Organizations.to_issuer(), "organizations");
    assert_eq!(Tenant::Issuer("contoso.com".to_owned()).to_issuer(), "contoso.com");
    let auth = Auth::new("cid", Permission::new_read(), "http://r", Tenant::Issuer("t1".to_owned())).unwrap();
    assert_eq!(auth.client_id(), "cid");
    assert_eq!(auth.redirect_uri(), "http://r");
    assert_eq!(auth.tenant(), &Tenant::Issuer("t1".to_owned()));
    assert_eq!(*auth.permission(), Permission::new_read());
    let _ = auth.client();
}

#[test]
fn credential_params() {
    assert!(ClientCredential::Nothing.params().is_empty());
    assert_eq!(ClientCredential::Secret("s".to_owned()).params(), pairs(&[("client_secret", "s")]));
    assert_eq!(
        ClientCredential::Assertion("jwt".to_owned()).params(),
        pairs(&[
            ("client_assertion_type", "urn:ietf:params:oauth:client-assertion-type:jwt-bearer"),
            ("client_assertion", "jwt"),
        ]),
    );
}

#[test]
fn token_requests() {
    let auth = Auth::new("cid", Permission::new_read().offline_access(true), "http://r", Tenant::Consumers).unwrap();
    let tr = auth.login_with_code("the code", &ClientCredential::Secret("sec".to_owned()));
    assert!(tr.require_refresh);
    let req = tr.request.as_ref().unwrap();
    assert_eq!(req.method, Method::Post);
    assert_eq!(req.url, "https://login.microsoftonline.com/consumers/oauth2/v2.0/token");
    assert_eq!(req.headers, pairs(&[("content-type", "application/x-www-form-urlencoded")]));
    assert_eq!(
        text(&req.body),
        "client_id=cid&code=the+code&grant_type=authorization_code&redirect_uri=http%3A%2F%2Fr&client_secret=sec",
    );

    let tr = auth.login_with_refresh_token("rt", &ClientCredential::Nothing);
    assert!(tr.require_refresh);
    assert_eq!(
        text(&tr.request.as_ref().unwrap().body),
        "client_id=cid&grant_type=refresh_token&redirect_uri=http%3A%2F%2Fr&refresh_token=rt",
    );

    let missing = TokenResponse::new("Bearer".to_owned(), vec![], 3600, "at".to_owned(), None);
    assert!(tr.check_response(missing).is_err());
    let present = TokenResponse::new("Bearer".to_owned(), vec![], 3600, "at".to_owned(), Some("rt2".to_owned()));
    assert_eq!(tr.check_response(present).unwrap().refresh_token.as_deref(), Some("rt2"));
}

#[test]
fn legacy_auth_client() {
    let perm = LegacyPermission::new_read().write(true).offline_access(true);
    let client = AuthClient::new("cid".to_owned(), perm, "http://r".to_owned());
    assert_eq!(
        client.get_code_auth_url().unwrap(),
        "https://login.microsoftonline.com/common/oauth2/v2.0/authorize?client_id=cid&scope=offline_access+files.readwrite&redirect_uri=http%3A%2F%2Fr&response_type=code",
    );
    assert!(client.get_token_auth_url().unwrap().ends_with("&response_type=token"));

    let tr = client.login_with_code("c", None);
    assert!(tr.require_refresh);
    let req = tr.request.as_ref().unwrap();
    assert_eq!(req.url, "https://login.microsoftonline.com/common/oauth2/v2.0/token");
    assert!(req.headers.is_empty());
    assert_eq!(
        text(&req.body),
        "client_id=cid&client_secret=&code=c&grant_type=authorization_code&redirect_uri=http%3A%2F%2Fr",
    );
    assert!(tr.token_from("at".to_owned(), None).is_err());
    let token = tr.token_from("at".to_owned(), Some("rt".to_owned())).unwrap();
    assert_eq!(token.token, "at");

    let tr = client.login_with_refresh_token("rt", Some("s"));
    assert_eq!(
        text(&tr.request.as_ref().unwrap().body),
        "client_id=cid&client_secret=s&grant_type=refresh_token&redirect_uri=http%3A%2F%2Fr&refresh_token=rt",
    );

    let read_only = AuthClient::new("cid".to_owned(), LegacyPermission::new_read(), "u".to_owned());
    let tr = read_only.login_with_code("c", None);
    assert!(!tr.require_refresh);
    assert!(tr.token_from("at".to_owned(), None).is_ok());
}
