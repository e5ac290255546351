//! OAuth2 authentication and authorization basics for Microsoft Graph.
use vstd::prelude::*;
use crate::api::{
    BodyView, Method, RawRequest, RequestBody, RequestBuilder, RequestView, finish_spec,
    build_failure_reason, new_builder, pair, with_header, yields,
};
use crate::error::{Error, Result};
use crate::util::{lemma_split_on_nonempty, split_on};
use crate::urls::{
    append_path_segments, append_query_pairs, encode_form, form_urlencoded, url_with_path_segments,
    url_with_query_pairs,
};
use reqwest::Client as HttpClient;
use reqwest::Error as ReqwestError;

verus! {

/// The HTTP client type of `reqwest`, carried through by `Auth`.
#[verifier::external_type_specification]
#[verifier::external_body]
pub struct ExHttpClient(HttpClient);

/// `Clone` of `reqwest::Client`, which hands out another handle to the same connection
/// pool. Nothing is claimed of the result.
pub assume_specification[ <HttpClient as std::clone::Clone>::clone ](c: &HttpClient) -> HttpClient;

/// The host of the Microsoft identity platform.
pub const LOGIN_BASE: &'static str = "https://login.microsoftonline.com";

/// A list of the Microsoft Graph permissions that you want the user to consent to.
#[derive(Clone, Copy, Debug, Default, PartialEq, Eq, Structural)]
pub struct Permission {
    write: bool,
    access_shared: bool,
    offline_access: bool,
}

/// The scope string of a permission: `files.readwrite` or `files.read`, then `.all` for
/// shared files, then ` offline_access` when offline access is allowed.
pub open spec fn scope_string_spec(write: bool, access_shared: bool, offline_access: bool) -> Seq<char> {
    (if write {
        "files.readwrite"@
    } else {
        "files.read"@
    }) + (if access_shared {
        ".all"@
    } else {
        Seq::empty()
    }) + (if offline_access {
        " offline_access"@
    } else {
        Seq::empty()
    })
}

/// Every permission allows at least reading: its scope starts with `files.read`.
pub proof fn lemma_scope_allows_reading(write: bool, access_shared: bool, offline_access: bool)
    ensures
        scope_string_spec(write, access_shared, offline_access).take(10) == "files.read"@,
{
    reveal_strlit("files.read");
    reveal_strlit("files.readwrite");
    let s = scope_string_spec(write, access_shared, offline_access);
    let head: Seq<char> = if write {
        "files.readwrite"@
    } else {
        "files.read"@
    };
    assert(s.take(10) =~= head.take(10));
    assert(head.take(10) =~= "files.read"@);
}

/// The settings of a permission can be read back from its scope: the scope starts with
/// `files.readwrite` when writing is allowed and with `files.read` otherwise; `.all`
/// follows right after exactly when shared files are accessible, whether or not writing
/// is allowed; and it ends with ` offline_access` exactly when offline access is
/// allowed. So each setting, on its own, changes the scope.
pub proof fn lemma_scope_parts(write: bool, access_shared: bool, offline_access: bool)
    ensures
        ({
            let s = scope_string_spec(write, access_shared, offline_access);
            let n: int = if write {
                15
            } else {
                10
            };
            &&& s.take(n) == (if write {
                "files.readwrite"@
            } else {
                "files.read"@
            })
            &&& (access_shared <==> (s.len() >= n + 4 && s.subrange(n, n + 4) == ".all"@))
            &&& (offline_access <==> (s.len() >= 15 && s.skip(s.len() - 15) == " offline_access"@))
        }),
        scope_string_spec(write, true, offline_access) != scope_string_spec(write, false, offline_access),
        scope_string_spec(true, access_shared, offline_access) != scope_string_spec(false, access_shared, offline_access),
        scope_string_spec(write, access_shared, true) != scope_string_spec(write, access_shared, false),
{
    lemma_scope_read_back(write, access_shared, offline_access);
    lemma_scope_read_back(write, !access_shared, offline_access);
    lemma_scope_read_back(!write, access_shared, offline_access);
    lemma_scope_read_back(write, access_shared, !offline_access);
    reveal_strlit("files.read");
    reveal_strlit("files.readwrite");
    let a = scope_string_spec(true, access_shared, offline_access);
    let b = scope_string_spec(false, access_shared, offline_access);
    if a == b {
        assert(a.take(15)[10] == 'w');
        assert(b.take(10) == "files.read"@);
        if access_shared {
            assert(b.subrange(10, 14)[0] == '.');
            assert(b[10] == '.');
        } else if offline_access {
            reveal_strlit(" offline_access");
            assert(b.skip(b.len() - 15)[0] == ' ');
            assert(b.len() == 25);
            assert(b[10] == ' ');
        } else {
            assert(b.len() == 10);
        }
        assert(a[10] == 'w');
    }
}

proof fn lemma_scope_read_back(write: bool, access_shared: bool, offline_access: bool)
    ensures
        ({
            let s = scope_string_spec(write, access_shared, offline_access);
            let n: int = if write {
                15
            } else {
                10
            };
            &&& s.len() == n + (if access_shared { 4int } else { 0int }) + (if offline_access { 15int } else { 0int })
            &&& s.take(n) == (if write {
                "files.readwrite"@
            } else {
                "files.read"@
            })
            &&& (access_shared <==> (s.len() >= n + 4 && s.subrange(n, n + 4) == ".all"@))
            &&& (offline_access <==> (s.len() >= 15 && s.skip(s.len() - 15) == " offline_access"@))
        }),
{
    reveal_strlit("files.read");
    reveal_strlit("files.readwrite");
    reveal_strlit(".all");
    reveal_strlit(" offline_access");
    let s = scope_string_spec(write, access_shared, offline_access);
    let head: Seq<char> = if write {
        "files.readwrite"@
    } else {
        "files.read"@
    };
    let mid: Seq<char> = if access_shared {
        ".all"@
    } else {
        Seq::empty()
    };
    let tail: Seq<char> = if offline_access {
        " offline_access"@
    } else {
        Seq::empty()
    };
    let n = head.len() as int;
    assert(s == head + mid + tail);
    assert(s.take(n) =~= head);
    if access_shared {
        assert(s.subrange(n, n + 4) =~= ".all"@);
    } else if s.len() >= n + 4 {
        assert(offline_access);
        assert(s.subrange(n, n + 4)[0] == ' ');
    }
    if offline_access {
        assert(s.skip(s.len() - 15) =~= " offline_access"@);
    } else if s.len() >= 15 {
        assert(s.skip(s.len() - 15)[0] == s[s.len() - 15]);
        if write && !access_shared {
            assert(s[0] == 'f');
        } else {
            assert(write && access_shared);
            assert(s[4] == 's');
        }
    }
}

impl Permission {
    /// Whether writing is allowed.
    pub closed spec fn can_write(&self) -> bool {
        self.write
    }

    /// Whether shared files are accessible.
    pub closed spec fn can_access_shared(&self) -> bool {
        self.access_shared
    }

    /// Whether offline access is allowed.
    pub closed spec fn has_offline_access(&self) -> bool {
        self.offline_access
    }

    /// The scope string requested for this permission.
    pub open spec fn scope(&self) -> Seq<char> {
        scope_string_spec(self.can_write(), self.can_access_shared(), self.has_offline_access())
    }

    /// Create a read-only permission.
    ///
    /// Note that the permission is at least to allow reading.
    pub fn new_read() -> (r: Self)
        ensures
            !r.can_write() && !r.can_access_shared() && !r.has_offline_access(),
    {
        Permission { write: false, access_shared: false, offline_access: false }
    }

    /// Set the write permission.
    pub fn write(self, write: bool) -> (r: Self)
        ensures
            r.can_write() == write,
            r.can_access_shared() == self.can_access_shared(),
            r.has_offline_access() == self.has_offline_access(),
    {
        Permission { write, ..self }
    }

    /// Set the permission to the shared files.
    pub fn access_shared(self, access_shared: bool) -> (r: Self)
        ensures
            r.can_write() == self.can_write(),
            r.can_access_shared() == access_shared,
            r.has_offline_access() == self.has_offline_access(),
    {
        Permission { access_shared, ..self }
    }

    /// Set whether allows offline access.
    ///
    /// This permission is required to get a refresh token for long time access.
    pub fn offline_access(self, offline_access: bool) -> (r: Self)
        ensures
            r.can_write() == self.can_write(),
            r.can_access_shared() == self.can_access_shared(),
            r.has_offline_access() == offline_access,
    {
        Permission { offline_access, ..self }
    }

    /// Whether offline access is allowed, as `login_with_refresh_token` requires.
    pub fn offline_access_allowed(&self) -> (r: bool)
        ensures
            r == self.has_offline_access(),
    {
        self.offline_access
    }

    /// The scope string requested for this permission.
    pub fn to_scope_string(self) -> (r: String)
        ensures
            r@ == self.scope(),
    {
        let mut s = if self.write {
            "files.readwrite".to_owned()
        } else {
            "files.read".to_owned()
        };
        if self.access_shared {
            s.append(".all");
        }
        if self.offline_access {
            s.append(" offline_access");
        }
        assert(s@ =~= self.scope());
        s
    }
}

/// Control who can sign into the application.
///
/// It must match the target audience configuration of registered application.
#[derive(Debug, Clone, PartialEq, Eq, Hash)]
pub enum Tenant {
    /// For both Microsoft accounts and work or school accounts.
    Common,
    /// For work or school accounts only.
    Organizations,
    /// For Microsoft accounts only.
    Consumers,
    /// Tenant identifiers such as the tenant ID or domain name.
    Issuer(String),
}

/// The issuer segment of a tenant.
pub open spec fn issuer_of(t: Tenant) -> Seq<char> {
    match t {
        Tenant::Common => "common"@,
        Tenant::Organizations => "organizations"@,
        Tenant::Consumers => "consumers"@,
        Tenant::Issuer(s) => s@,
    }
}

impl Tenant {
    /// The issuer segment used in endpoint URLs.
    pub fn to_issuer(&self) -> (r: &str)
        ensures
            r@ == issuer_of(*self),
    {
        match self {
            Tenant::Common => "common",
            Tenant::Organizations => "organizations",
            Tenant::Consumers => "consumers",
            Tenant::Issuer(s) => s.as_str(),
        }
    }
}

/// Calls `reqwest::Client::builder().build()`. Nothing is claimed of the result: the
/// client, or the error of a TLS backend or resolver that cannot be set up.
#[verifier::external_body]
fn build_http_client() -> std::result::Result<HttpClient, ReqwestError> {
    HttpClient::builder().build()
}

/// OAuth2 authentication and authorization basics for Microsoft Graph.
#[derive(Debug, Clone)]
pub struct Auth {
    client: HttpClient,
    client_id: String,
    permission: Permission,
    redirect_uri: String,
    tenant: Tenant,
}

/// The path segments of an OAuth2 endpoint for a tenant.
pub open spec fn endpoint_segments(tenant: Tenant, endpoint: Seq<char>) -> Seq<Seq<char>> {
    seq![issuer_of(tenant), "oauth2"@, "v2.0"@, endpoint]
}

/// A token request to the OAuth2 endpoint, and whether the response must carry a refresh
/// token.
#[derive(Debug)]
pub struct TokenRequest {
    pub request: Result<RawRequest>,
    pub require_refresh: bool,
}

/// Whether `r` is `Ok` of the URL `u`, or the error for an invalid URL when there is none.
pub open spec fn url_result(r: Result<String>, u: Option<Seq<char>>) -> bool {
    match u {
        Some(u) => r is Ok && r->Ok_0@ == u,
        None => r is Err && r->Err_0.is_invalid_request(build_failure_reason()),
    }
}

/// The parameters that a client credential adds to a token request.
pub open spec fn credential_params(c: ClientCredential) -> Seq<(Seq<char>, Seq<char>)> {
    match c {
        ClientCredential::Nothing => Seq::empty(),
        ClientCredential::Secret(s) => seq![("client_secret"@, s@)],
        ClientCredential::Assertion(s) => seq![
            ("client_assertion_type"@, "urn:ietf:params:oauth:client-assertion-type:jwt-bearer"@),
            ("client_assertion"@, s@),
        ],
    }
}

/// Whether a token response is accepted: it must carry a refresh token when one is
/// required.
pub open spec fn token_accepted(require_refresh: bool, has_refresh_token: bool) -> bool {
    !require_refresh || has_refresh_token
}

/// A login with a refresh token that succeeds always gives a new refresh token.
pub proof fn lemma_refresh_login_renews_refresh_token(has_refresh_token: bool)
    requires
        token_accepted(true, has_refresh_token),
    ensures
        has_refresh_token,
{
}

/// The reason given when a refresh token is required but missing.
pub open spec fn missing_refresh_token_reason() -> Seq<char> {
    "Missing field `refresh_token`"@
}

impl Auth {
    /// The application (client) identifier.
    pub closed spec fn client_id_spec(&self) -> Seq<char> {
        self.client_id@
    }

    /// The requested permission.
    pub closed spec fn permission_spec(&self) -> Permission {
        self.permission
    }

    /// The redirect URI.
    pub closed spec fn redirect_uri_spec(&self) -> Seq<char> {
        self.redirect_uri@
    }

    /// The tenant.
    pub closed spec fn tenant_spec(&self) -> Tenant {
        self.tenant
    }

    /// The HTTP client.
    pub closed spec fn client_spec(&self) -> HttpClient {
        self.client
    }

    /// Create an new instance for OAuth2 to Microsoft Graph with specified client
    /// identifier and permission, and a new HTTP client.
    pub fn new(client_id: &str, permission: Permission, redirect_uri: &str, tenant: Tenant) -> (r: Result<Self>)
        ensures
            r matches Ok(a) ==> a.client_id_spec() == client_id@ && a.permission_spec() == permission
                && a.redirect_uri_spec() == redirect_uri@ && a.tenant_spec() == tenant,
            r matches Err(e) ==> e.kind() is RequestError,
    {
        match build_http_client() {
            Ok(client) => Ok(Self::new_with_client(client, client_id, permission, redirect_uri, tenant)),
            Err(e) => Err(Error::from_request_error(e)),
        }
    }

    /// Same as `Auth::new` but with a given `reqwest::Client`.
    pub fn new_with_client(
        client: HttpClient,
        client_id: &str,
        permission: Permission,
        redirect_uri: &str,
        tenant: Tenant,
    ) -> (r: Self)
        ensures
            r.client_spec() == client,
            r.client_id_spec() == client_id@,
            r.permission_spec() == permission,
            r.redirect_uri_spec() == redirect_uri@,
            r.tenant_spec() == tenant,
    {
        Auth {
            client,
            client_id: client_id.to_owned(),
            permission,
            redirect_uri: redirect_uri.to_owned(),
            tenant,
        }
    }

    /// Get the `client` used to create this instance.
    pub fn client(&self) -> (r: &HttpClient)
        ensures
            *r == self.client_spec(),
    {
        &self.client
    }

    /// Get the `client_id` used to create this instance.
    pub fn client_id(&self) -> (r: &str)
        ensures
            r@ == self.client_id_spec(),
    {
        self.client_id.as_str()
    }

    /// Get the `permission` used to create this instance.
    pub fn permission(&self) -> (r: &Permission)
        ensures
            *r == self.permission_spec(),
    {
        &self.permission
    }

    /// Get the `redirect_uri` used to create this instance.
    pub fn redirect_uri(&self) -> (r: &str)
        ensures
            r@ == self.redirect_uri_spec(),
    {
        self.redirect_uri.as_str()
    }

    /// Get the `tenant` used to create this instance.
    pub fn tenant(&self) -> (r: &Tenant)
        ensures
            *r == self.tenant_spec(),
    {
        &self.tenant
    }

    /// The URL of an OAuth2 endpoint of the tenant.
    pub open spec fn endpoint_url_spec(&self, endpoint: Seq<char>) -> Option<Seq<char>> {
        match url_with_path_segments(LOGIN_BASE@, endpoint_segments(self.tenant_spec(), endpoint)) {
            Some(p) => Some(p.0),
            None => None,
        }
    }

    fn endpoint_url(&self, endpoint: &str) -> (r: Result<String>)
        ensures
            url_result(r, self.endpoint_url_spec(endpoint@)),
    {
        let segments = vec![
            self.tenant.to_issuer().to_owned(),
            "oauth2".to_owned(),
            "v2.0".to_owned(),
            endpoint.to_owned(),
        ];
        assert(segments.deep_view() =~= endpoint_segments(self.tenant, endpoint@));
        match append_path_segments(LOGIN_BASE, &segments) {
            Some(p) => Ok(p.0),
            None => {
                proof {
                    reveal_strlit("Cannot build the request");
                }
                Err(Error::invalid_request("Cannot build the request"))
            },
        }
    }

    /// The URL for the web browser for code flow.
    pub open spec fn code_auth_url_spec(&self) -> Option<Seq<char>> {
        match self.endpoint_url_spec("authorize"@) {
            Some(u) => url_with_query_pairs(
                u,
                seq![
                    ("client_id"@, self.client_id_spec()),
                    ("scope"@, self.permission_spec().scope()),
                    ("redirect_uri"@, self.redirect_uri_spec()),
                    ("response_type"@, "code"@),
                ],
            ),
            None => None,
        }
    }

    /// Get the URL for web browser for code flow.
    pub fn code_auth_url(&self) -> (r: Result<String>)
        ensures
            url_result(r, self.code_auth_url_spec()),
    {
        let url = self.endpoint_url("authorize")?;
        let pairs = vec![
            pair("client_id", self.client_id.as_str()),
            ("scope".to_owned(), self.permission.to_scope_string()),
            pair("redirect_uri", self.redirect_uri.as_str()),
            pair("response_type", "code"),
        ];
        match append_query_pairs(url.as_str(), &pairs) {
            Some(u) => {
                assert(pairs.deep_view() =~= seq![
                    ("client_id"@, self.client_id_spec()),
                    ("scope"@, self.permission_spec().scope()),
                    ("redirect_uri"@, self.redirect_uri_spec()),
                    ("response_type"@, "code"@),
                ]);
                Ok(u)
            },
            None => {
                assert(pairs.deep_view() =~= seq![
                    ("client_id"@, self.client_id_spec()),
                    ("scope"@, self.permission_spec().scope()),
                    ("redirect_uri"@, self.redirect_uri_spec()),
                    ("response_type"@, "code"@),
                ]);
                proof {
                    reveal_strlit("Cannot build the request");
                }
                Err(Error::invalid_request("Cannot build the request"))
            },
        }
    }

    /// The token request with the form-encoded `params`.
    pub open spec fn token_request_spec(&self, params: Seq<(Seq<char>, Seq<char>)>) -> Option<RequestView> {
        match (self.endpoint_url_spec("token"@), form_urlencoded(params)) {
            (Some(u), Some(text)) => finish_spec(
                with_header(
                    new_builder(Method::Post, u),
                    "content-type"@,
                    "application/x-www-form-urlencoded"@,
                ),
                BodyView::Text(text),
            ),
            _ => None,
        }
    }

    fn request_token(&self, require_refresh: bool, params: Vec<(String, String)>) -> (r: TokenRequest)
        ensures
            r.require_refresh == require_refresh,
            yields(r.request, self.token_request_spec(params.deep_view())),
    {
        proof {
            reveal_strlit("Cannot build the request");
        }
        let request = match self.endpoint_url("token") {
            Ok(url) => match encode_form(&params) {
                Some(text) => RequestBuilder::new(Method::Post, url).header(
                    "content-type",
                    "application/x-www-form-urlencoded".to_owned(),
                ).body(RequestBody::Text(text)),
                None => Err(Error::invalid_request("Cannot build the request")),
            },
            Err(e) => Err(e),
        };
        TokenRequest { request, require_refresh }
    }

    /// The parameters of a login using a code.
    pub open spec fn code_login_params(&self, code: Seq<char>, c: ClientCredential) -> Seq<(Seq<char>, Seq<char>)> {
        seq![
            ("client_id"@, self.client_id_spec()),
            ("code"@, code),
            ("grant_type"@, "authorization_code"@),
            ("redirect_uri"@, self.redirect_uri_spec()),
        ] + credential_params(c)
    }

    /// Login using a code.
    ///
    /// The response must carry a refresh token when the permission allows offline access.
    pub fn login_with_code(&self, code: &str, client_credential: &ClientCredential) -> (r: TokenRequest)
        ensures
            r.require_refresh == self.permission_spec().has_offline_access(),
            yields(r.request, self.token_request_spec(self.code_login_params(code@, *client_credential))),
    {
        let mut params = vec![
            pair("client_id", self.client_id.as_str()),
            pair("code", code),
            pair("grant_type", "authorization_code"),
            pair("redirect_uri", self.redirect_uri.as_str()),
        ];
        let ghost p0 = params.deep_view();
        let mut extra = client_credential.params();
        params.append(&mut extra);
        assert(params.deep_view() =~= self.code_login_params(code@, *client_credential));
        self.request_token(self.permission.offline_access, params)
    }

    /// The parameters of a login using a refresh token.
    pub open spec fn refresh_login_params(&self, refresh_token: Seq<char>, c: ClientCredential) -> Seq<(Seq<char>, Seq<char>)> {
        seq![
            ("client_id"@, self.client_id_spec()),
            ("grant_type"@, "refresh_token"@),
            ("redirect_uri"@, self.redirect_uri_spec()),
            ("refresh_token"@, refresh_token),
        ] + credential_params(c)
    }

    /// Login using a refresh token.
    ///
    /// This requires offline access, and the response must carry a new refresh token.
    pub fn login_with_refresh_token(&self, refresh_token: &str, client_credential: &ClientCredential) -> (r: TokenRequest)
        requires
            self.permission_spec().has_offline_access(),
        ensures
            r.require_refresh,
            yields(r.request, self.token_request_spec(self.refresh_login_params(refresh_token@, *client_credential))),
    {
        let mut params = vec![
            pair("client_id", self.client_id.as_str()),
            pair("grant_type", "refresh_token"),
            pair("redirect_uri", self.redirect_uri.as_str()),
            pair("refresh_token", refresh_token),
        ];
        let mut extra = client_credential.params();
        params.append(&mut extra);
        assert(params.deep_view() =~= self.refresh_login_params(refresh_token@, *client_credential));
        self.request_token(true, params)
    }
}

/// Every login sends its grant and the client credential. The parameters of a login by
/// code hold the client ID, the code, the grant type `authorization_code` and the
/// redirect URI; those of a login by refresh token hold the client ID, the grant type
/// `refresh_token`, the redirect URI and the refresh token. Both end with the
/// credential: a secret as `client_secret`; an assertion as `client_assertion` with its
/// JWT bearer type; no credential adds nothing.
pub proof fn lemma_login_params_carry_credential(a: Auth, code: Seq<char>, refresh_token: Seq<char>, c: ClientCredential)
    ensures
        a.code_login_params(code, c).contains(("client_id"@, a.client_id_spec())),
        a.code_login_params(code, c).contains(("code"@, code)),
        a.code_login_params(code, c).contains(("grant_type"@, "authorization_code"@)),
        a.code_login_params(code, c).contains(("redirect_uri"@, a.redirect_uri_spec())),
        a.refresh_login_params(refresh_token, c).contains(("client_id"@, a.client_id_spec())),
        a.refresh_login_params(refresh_token, c).contains(("grant_type"@, "refresh_token"@)),
        a.refresh_login_params(refresh_token, c).contains(("redirect_uri"@, a.redirect_uri_spec())),
        a.refresh_login_params(refresh_token, c).contains(("refresh_token"@, refresh_token)),
        a.code_login_params(code, c).skip(4) == credential_params(c),
        a.refresh_login_params(refresh_token, c).skip(4) == credential_params(c),
        c matches ClientCredential::Secret(s) ==> {
            &&& a.code_login_params(code, c).last() == ("client_secret"@, s@)
            &&& a.refresh_login_params(refresh_token, c).last() == ("client_secret"@, s@)
        },
        c matches ClientCredential::Assertion(s) ==> {
            &&& a.code_login_params(code, c).skip(4) == seq![
                ("client_assertion_type"@, "urn:ietf:params:oauth:client-assertion-type:jwt-bearer"@),
                ("client_assertion"@, s@),
            ]
            &&& a.refresh_login_params(refresh_token, c).skip(4) == seq![
                ("client_assertion_type"@, "urn:ietf:params:oauth:client-assertion-type:jwt-bearer"@),
                ("client_assertion"@, s@),
            ]
        },
        c is Nothing ==> a.code_login_params(code, c).len() == 4 && a.refresh_login_params(refresh_token, c).len() == 4,
{
    let p = a.code_login_params(code, c);
    let q = a.refresh_login_params(refresh_token, c);
    assert(p[0] == ("client_id"@, a.client_id_spec()));
    assert(p[1] == ("code"@, code));
    assert(p[2] == ("grant_type"@, "authorization_code"@));
    assert(p[3] == ("redirect_uri"@, a.redirect_uri_spec()));
    assert(q[0] == ("client_id"@, a.client_id_spec()));
    assert(q[1] == ("grant_type"@, "refresh_token"@));
    assert(q[2] == ("redirect_uri"@, a.redirect_uri_spec()));
    assert(q[3] == ("refresh_token"@, refresh_token));
    assert(p.skip(4) =~= credential_params(c));
    assert(q.skip(4) =~= credential_params(c));
}

impl TokenRequest {
    /// Check the token response of a successful request: an error when a refresh token is
    /// required but missing, the response itself otherwise.
    pub fn check_response(&self, resp: TokenResponse) -> (r: Result<TokenResponse>)
        ensures
            !token_accepted(self.require_refresh, resp.refresh_token is Some) ==> r is Err
                && r->Err_0.is_unexpected(missing_refresh_token_reason()),
            token_accepted(self.require_refresh, resp.refresh_token is Some) ==> r == Ok::<
                TokenResponse,
                Error,
            >(resp),
    {
        if self.require_refresh && resp.refresh_token.is_none() {
            proof {
                reveal_strlit("Missing field `refresh_token`");
            }
            return Err(Error::unexpected_response("Missing field `refresh_token`"));
        }
        Ok(resp)
    }
}

/// Credential of client for code redeemption.
#[derive(Default, Clone, PartialEq, Eq)]
#[non_exhaustive]
pub enum ClientCredential {
    /// Nothing. This is the usual case for non-confidential native apps.
    #[default]
    Nothing,
    /// The application secret that you created in the app registration portal for your app.
    Secret(String),
    /// An assertion, which is a JSON web token (JWT), signed with the certificate
    /// registered as credentials for your application.
    Assertion(String),
}

impl ClientCredential {
    /// The parameters that this credential adds to a token request.
    pub fn params(&self) -> (r: Vec<(String, String)>)
        ensures
            r.deep_view() == credential_params(*self),
    {
        let r = match self {
            ClientCredential::Nothing => Vec::new(),
            ClientCredential::Secret(s) => vec![pair("client_secret", s.as_str())],
            ClientCredential::Assertion(s) => vec![
                pair("client_assertion_type", "urn:ietf:params:oauth:client-assertion-type:jwt-bearer"),
                pair("client_assertion", s.as_str()),
            ],
        };
        assert(r.deep_view() =~= credential_params(*self));
        r
    }
}

/// Tokens and some additional data returned by a successful authorization.
#[derive(Clone)]
#[non_exhaustive]
pub struct TokenResponse {
    /// Indicates the token type value. The only type that Azure AD supports is Bearer.
    pub token_type: String,
    /// A list of the Microsoft Graph permissions that the access_token is valid for.
    pub scope: Vec<String>,
    /// How long the access token is valid (in seconds).
    pub expires_in_secs: u64,
    /// The access token used for authorization in requests.
    pub access_token: String,
    /// The refresh token for refreshing (re-get) an access token when the previous one
    /// expired. Only returned in code auth flow with offline access permission.
    pub refresh_token: Option<String>,
}

impl TokenResponse {
    /// Assemble a token response from its fields.
    pub fn new(
        token_type: String,
        scope: Vec<String>,
        expires_in_secs: u64,
        access_token: String,
        refresh_token: Option<String>,
    ) -> (r: Self)
        ensures
            r.token_type == token_type,
            r.scope == scope,
            r.expires_in_secs == expires_in_secs,
            r.access_token == access_token,
            r.refresh_token == refresh_token,
    {
        TokenResponse { token_type, scope, expires_in_secs, access_token, refresh_token }
    }
}

/// The list of space-separated strings in `s`, as the `scope` of a token response is
/// written.
pub fn space_separated_strings(s: &str) -> (r: Vec<String>)
    ensures
        r.deep_view() == split_on(s@, ' '),
{
    let n = s.unicode_len();
    let mut pieces: Vec<String> = Vec::new();
    let mut start: usize = 0;
    let mut i: usize = 0;
    assert(s@.take(0) =~= Seq::<char>::empty());
    assert(pieces.deep_view().push(s@.subrange(0, 0)) =~= split_on(s@.take(0), ' '));
    while i < n
        invariant
            start <= i <= n,
            n == s@.len(),
            pieces.deep_view().push(s@.subrange(start as int, i as int)) == split_on(s@.take(i as int), ' '),
        decreases n - i,
    {
        let c = s.get_char(i);
        let ghost t = s@.take(i + 1);
        assert(t.drop_last() =~= s@.take(i as int));
        assert(t.last() == c);
        proof {
            lemma_split_on_nonempty(s@.take(i as int), ' ');
        }
        if c == ' ' {
            let ghost old_pieces = pieces.deep_view();
            let ghost old_start = start;
            let piece = s.substring_char(start, i).to_owned();
            pieces.push(piece);
            assert(pieces.deep_view() =~= old_pieces.push(s@.subrange(old_start as int, i as int)));
            start = i + 1;
            assert(s@.subrange(start as int, (i + 1) as int) =~= Seq::<char>::empty());
            assert(pieces.deep_view().push(s@.subrange(start as int, (i + 1) as int)) =~= split_on(t, ' '));
        } else {
            let ghost p = split_on(s@.take(i as int), ' ');
            assert(s@.subrange(start as int, (i + 1) as int) =~= s@.subrange(start as int, i as int).push(c));
            assert(pieces.deep_view().push(s@.subrange(start as int, (i + 1) as int)) =~= p.update(
                p.len() - 1,
                p.last().push(c),
            ));
        }
        i = i + 1;
    }
    let last = s.substring_char(start, n).to_owned();
    pieces.push(last);
    assert(s@.take(n as int) =~= s@);
    assert(pieces.deep_view() =~= split_on(s@, ' '));
    pieces
}

} // verus!
