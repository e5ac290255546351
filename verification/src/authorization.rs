//! Authorization for Microsoft Graph through the OAuth2 token and code flows.
use vstd::prelude::*;
use crate::api::{
    BodyView, Method, RawRequest, RequestBody, RequestBuilder, finish_spec, build_failure_reason,
    new_builder, pair, yields,
};
use crate::auth::token_accepted;
use crate::error::{Error, Result};
use crate::urls::{append_query_pairs, encode_form, form_urlencoded, url_with_query_pairs};

verus! {

/// The authorization endpoint shared by all accounts.
pub const AUTHORIZE_URL: &'static str = "https://login.microsoftonline.com/common/oauth2/v2.0/authorize";

/// The token endpoint shared by all accounts.
pub const TOKEN_URL: &'static str = "https://login.microsoftonline.com/common/oauth2/v2.0/token";

/// A list of the Microsoft Graph permissions that you want the user to consent to.
#[derive(Clone, Copy, Debug, Default, PartialEq, Eq, Structural)]
pub struct Permission {
    write: bool,
    access_shared: bool,
    offline_access: bool,
}

/// The scope string of a permission: `offline_access ` when offline access is allowed,
/// then `files.readwrite` or `files.read`, then `.all` for shared files.
pub open spec fn scope_str_spec(write: bool, access_shared: bool, offline_access: bool) -> Seq<char> {
    (if offline_access {
        "offline_access "@
    } else {
        Seq::empty()
    }) + (if write {
        "files.readwrite"@
    } else {
        "files.read"@
    }) + (if access_shared {
        ".all"@
    } else {
        Seq::empty()
    })
}

/// Every permission allows at least reading: after the optional `offline_access `, its
/// scope starts with `files.read`.
pub proof fn lemma_scope_str_allows_reading(write: bool, access_shared: bool, offline_access: bool)
    ensures
        scope_str_spec(write, access_shared, offline_access).skip(if offline_access {
            15
        } else {
            0
        }).take(10) == "files.read"@,
{
    reveal_strlit("files.read");
    reveal_strlit("files.readwrite");
    reveal_strlit("offline_access ");
    let s = scope_str_spec(write, access_shared, offline_access);
    let prefix: Seq<char> = if offline_access {
        "offline_access "@
    } else {
        Seq::empty()
    };
    let head: Seq<char> = if write {
        "files.readwrite"@
    } else {
        "files.read"@
    };
    let tail: Seq<char> = if access_shared {
        ".all"@
    } else {
        Seq::empty()
    };
    assert(s == prefix + head + tail);
    assert(s.skip(prefix.len() as int) =~= head + tail);
    assert((head + tail).take(10) =~= "files.read"@);
}

/// The settings of a permission can be read back from its scope: it starts with
/// `offline_access ` exactly when offline access is allowed; after that comes
/// `files.readwrite` when writing is allowed and `files.read` otherwise; and the scope
/// ends with `.all` exactly when shared files are accessible, whether or not writing is
/// allowed. So each setting, on its own, changes the scope.
pub proof fn lemma_scope_str_parts(write: bool, access_shared: bool, offline_access: bool)
    ensures
        ({
            let s = scope_str_spec(write, access_shared, offline_access);
            let k: int = if offline_access {
                15
            } else {
                0
            };
            let n: int = if write {
                15
            } else {
                10
            };
            &&& (offline_access <==> (s.len() >= 15 && s.take(15) == "offline_access "@))
            &&& s.subrange(k, k + n) == (if write {
                "files.readwrite"@
            } else {
                "files.read"@
            })
            &&& (access_shared <==> (s.len() >= 4 && s.skip(s.len() - 4) == ".all"@))
        }),
        scope_str_spec(write, true, offline_access) != scope_str_spec(write, false, offline_access),
        scope_str_spec(true, access_shared, offline_access) != scope_str_spec(false, access_shared, offline_access),
        scope_str_spec(write, access_shared, true) != scope_str_spec(write, access_shared, false),
{
    lemma_scope_str_read_back(write, access_shared, offline_access);
    lemma_scope_str_read_back(write, !access_shared, offline_access);
    lemma_scope_str_read_back(!write, access_shared, offline_access);
    lemma_scope_str_read_back(write, access_shared, !offline_access);
    let a = scope_str_spec(true, access_shared, offline_access);
    let b = scope_str_spec(false, access_shared, offline_access);
    if a == b {
        assert(a.len() != b.len());
    }
}

proof fn lemma_scope_str_read_back(write: bool, access_shared: bool, offline_access: bool)
    ensures
        ({
            let s = scope_str_spec(write, access_shared, offline_access);
            let k: int = if offline_access {
                15
            } else {
                0
            };
            let n: int = if write {
                15
            } else {
                10
            };
            &&& s.len() == k + n + (if access_shared { 4int } else { 0int })
            &&& (offline_access <==> (s.len() >= 15 && s.take(15) == "offline_access "@))
            &&& s.subrange(k, k + n) == (if write {
                "files.readwrite"@
            } else {
                "files.read"@
            })
            &&& (access_shared <==> (s.len() >= 4 && s.skip(s.len() - 4) == ".all"@))
        }),
{
    reveal_strlit("files.read");
    reveal_strlit("files.readwrite");
    reveal_strlit(".all");
    reveal_strlit("offline_access ");
    let s = scope_str_spec(write, access_shared, offline_access);
    let pre: Seq<char> = if offline_access {
        "offline_access "@
    } else {
        Seq::empty()
    };
    let head: Seq<char> = if write {
        "files.readwrite"@
    } else {
        "files.read"@
    };
    let tail: Seq<char> = if access_shared {
        ".all"@
    } else {
        Seq::empty()
    };
    let k = pre.len() as int;
    let n = head.len() as int;
    assert(s == pre + head + tail);
    assert(s.subrange(k, k + n) =~= head);
    if offline_access {
        assert(s.take(15) =~= "offline_access "@);
    } else if s.len() >= 15 {
        assert(s.take(15)[0] == 'f');
    }
    if access_shared {
        assert(s.skip(s.len() - 4) =~= ".all"@);
    } else {
        assert(s.skip(s.len() - 4)[3] == s[s.len() - 1]);
        assert(s[s.len() - 1] == 'd' || s[s.len() - 1] == 'e');
    }
}

impl Permission {
    /// Whether writing is allowed.
    pub closed spec fn can_write(&self) -> bool {
        self.write
    }

    /// Whether shared files are accessible.
    pub closed spec fn can_access_shared(&self) -> bool {
        self.access_shared
    }

    /// Whether offline access is allowed.
    pub closed spec fn has_offline_access(&self) -> bool {
        self.offline_access
    }

    /// Create a read-only permission.
    ///
    /// Note that the permission is at least to allow reading.
    pub fn new_read() -> (r: Self)
        ensures
            !r.can_write() && !r.can_access_shared() && !r.has_offline_access(),
    {
        Permission { write: false, access_shared: false, offline_access: false }
    }

    /// Set the write permission.
    pub fn write(self, write: bool) -> (r: Self)
        ensures
            r.can_write() == write,
            r.can_access_shared() == self.can_access_shared(),
            r.has_offline_access() == self.has_offline_access(),
    {
        Permission { write, ..self }
    }

    /// Set the permission to the shared files.
    pub fn access_shared(self, access_shared: bool) -> (r: Self)
        ensures
            r.can_write() == self.can_write(),
            r.can_access_shared() == access_shared,
            r.has_offline_access() == self.has_offline_access(),
    {
        Permission { access_shared, ..self }
    }

    /// Set whether allows offline access.
    ///
    /// This permission is required to get a refresh_token for long time access.
    pub fn offline_access(self, offline_access: bool) -> (r: Self)
        ensures
            r.can_write() == self.can_write(),
            r.can_access_shared() == self.can_access_shared(),
            r.has_offline_access() == offline_access,
    {
        Permission { offline_access, ..self }
    }

    /// The scope string requested for this permission.
    pub fn to_scope_str(&self) -> (r: &'static str)
        ensures
            r@ == scope_str_spec(self.can_write(), self.can_access_shared(), self.has_offline_access()),
    {
        proof {
            reveal_strlit("offline_access ");
            reveal_strlit("files.readwrite");
            reveal_strlit("files.read");
            reveal_strlit(".all");
            reveal_strlit("offline_access files.readwrite.all");
            reveal_strlit("offline_access files.readwrite");
            reveal_strlit("offline_access files.read.all");
            reveal_strlit("offline_access files.read");
            reveal_strlit("files.readwrite.all");
            reveal_strlit("files.read.all");
        }
        let r = if self.offline_access {
            if self.write {
                if self.access_shared {
                    "offline_access files.readwrite.all"
                } else {
                    "offline_access files.readwrite"
                }
            } else {
                if self.access_shared {
                    "offline_access files.read.all"
                } else {
                    "offline_access files.read"
                }
            }
        } else {
            if self.write {
                if self.access_shared {
                    "files.readwrite.all"
                } else {
                    "files.readwrite"
                }
            } else {
                if self.access_shared {
                    "files.read.all"
                } else {
                    "files.read"
                }
            }
        };
        assert(r@ =~= scope_str_spec(self.write, self.access_shared, self.offline_access));
        r
    }
}

/// The client for requests relative to authentication.
#[derive(Debug)]
pub struct AuthClient {
    client_id: String,
    permission: Permission,
    redirect_uri: String,
}

/// The query pairs of an authorization URL.
pub open spec fn auth_url_pairs(client_id: Seq<char>, scope: Seq<char>, redirect_uri: Seq<char>, response_type: Seq<char>) -> Seq<(Seq<char>, Seq<char>)> {
    seq![
        ("client_id"@, client_id),
        ("scope"@, scope),
        ("redirect_uri"@, redirect_uri),
        ("response_type"@, response_type),
    ]
}

/// An access token request, and whether its response must carry a refresh token.
#[derive(Debug)]
pub struct TokenRequest {
    pub request: Result<RawRequest>,
    pub require_refresh: bool,
}

/// The token request whose body is the form-encoded `params`.
pub open spec fn token_request_spec(params: Seq<(Seq<char>, Seq<char>)>) -> Option<crate::api::RequestView> {
    match form_urlencoded(params) {
        Some(text) => finish_spec(new_builder(Method::Post, TOKEN_URL@), BodyView::Text(text)),
        None => None,
    }
}

/// The parameters of a login with a code.
pub open spec fn code_login_params(client_id: Seq<char>, secret: Seq<char>, code: Seq<char>, redirect_uri: Seq<char>) -> Seq<(Seq<char>, Seq<char>)> {
    seq![
        ("client_id"@, client_id),
        ("client_secret"@, secret),
        ("code"@, code),
        ("grant_type"@, "authorization_code"@),
        ("redirect_uri"@, redirect_uri),
    ]
}

/// The parameters of a login with a refresh token.
pub open spec fn refresh_login_params(client_id: Seq<char>, secret: Seq<char>, redirect_uri: Seq<char>, refresh_token: Seq<char>) -> Seq<(Seq<char>, Seq<char>)> {
    seq![
        ("client_id"@, client_id),
        ("client_secret"@, secret),
        ("grant_type"@, "refresh_token"@),
        ("redirect_uri"@, redirect_uri),
        ("refresh_token"@, refresh_token),
    ]
}

/// The client secret sent: the given one, or the empty string.
pub open spec fn secret_or_empty(client_secret: Option<&str>) -> Seq<char> {
    match client_secret {
        Some(s) => s@,
        None => Seq::empty(),
    }
}

/// Every login sends its grant and the client secret. The parameters of a login by code
/// hold the client ID, the secret given (empty when none is), the code, the grant type
/// `authorization_code` and the redirect URI; those of a login by refresh token hold the
/// client ID, the secret, the grant type `refresh_token`, the redirect URI and the
/// refresh token. Nothing else is sent.
pub proof fn lemma_login_params_hold_grant(
    client_id: Seq<char>,
    client_secret: Option<&str>,
    code: Seq<char>,
    redirect_uri: Seq<char>,
    refresh_token: Seq<char>,
)
    ensures
        ({
            let p = code_login_params(client_id, secret_or_empty(client_secret), code, redirect_uri);
            &&& p.len() == 5
            &&& p.contains(("client_id"@, client_id))
            &&& p.contains(("client_secret"@, secret_or_empty(client_secret)))
            &&& p.contains(("code"@, code))
            &&& p.contains(("grant_type"@, "authorization_code"@))
            &&& p.contains(("redirect_uri"@, redirect_uri))
        }),
        ({
            let q = refresh_login_params(client_id, secret_or_empty(client_secret), redirect_uri, refresh_token);
            &&& q.len() == 5
            &&& q.contains(("client_id"@, client_id))
            &&& q.contains(("client_secret"@, secret_or_empty(client_secret)))
            &&& q.contains(("grant_type"@, "refresh_token"@))
            &&& q.contains(("redirect_uri"@, redirect_uri))
            &&& q.contains(("refresh_token"@, refresh_token))
        }),
        client_secret matches Some(s) ==> secret_or_empty(client_secret) == s@,
        client_secret is None ==> secret_or_empty(client_secret).len() == 0,
{
    let secret = secret_or_empty(client_secret);
    let p = code_login_params(client_id, secret, code, redirect_uri);
    let q = refresh_login_params(client_id, secret, redirect_uri, refresh_token);
    assert(p[0] == ("client_id"@, client_id));
    assert(p[1] == ("client_secret"@, secret));
    assert(p[2] == ("code"@, code));
    assert(p[3] == ("grant_type"@, "authorization_code"@));
    assert(p[4] == ("redirect_uri"@, redirect_uri));
    assert(q[0] == ("client_id"@, client_id));
    assert(q[1] == ("client_secret"@, secret));
    assert(q[2] == ("grant_type"@, "refresh_token"@));
    assert(q[3] == ("redirect_uri"@, redirect_uri));
    assert(q[4] == ("refresh_token"@, refresh_token));
}

/// The reason given when a refresh token is required but missing.
pub open spec fn missing_refresh_reason() -> Seq<char> {
    "Missing field `refresh_token`"@
}

impl AuthClient {
    /// The application (client) identifier.
    pub closed spec fn client_id_spec(&self) -> Seq<char> {
        self.client_id@
    }

    /// The requested permission.
    pub closed spec fn permission_spec(&self) -> Permission {
        self.permission
    }

    /// The redirect URI.
    pub closed spec fn redirect_uri_spec(&self) -> Seq<char> {
        self.redirect_uri@
    }

    /// Create a client for authorization.
    pub fn new(client_id: String, permission: Permission, redirect_uri: String) -> (r: Self)
        ensures
            r.client_id_spec() == client_id@,
            r.permission_spec() == permission,
            r.redirect_uri_spec() == redirect_uri@,
    {
        AuthClient { client_id, permission, redirect_uri }
    }

    /// The URL for the web browser, with the given `response_type`.
    pub open spec fn auth_url_spec(&self, response_type: Seq<char>) -> Option<Seq<char>> {
        url_with_query_pairs(
            AUTHORIZE_URL@,
            auth_url_pairs(
                self.client_id_spec(),
                scope_str_spec(
                    self.permission_spec().can_write(),
                    self.permission_spec().can_access_shared(),
                    self.permission_spec().has_offline_access(),
                ),
                self.redirect_uri_spec(),
                response_type,
            ),
        )
    }

    fn get_auth_url(&self, response_type: &str) -> (r: Result<String>)
        ensures
            match self.auth_url_spec(response_type@) {
                Some(u) => r is Ok && r->Ok_0@ == u,
                None => r is Err && r->Err_0.is_invalid_request(build_failure_reason()),
            },
    {
        let pairs = vec![
            pair("client_id", self.client_id.as_str()),
            pair("scope", self.permission.to_scope_str()),
            pair("redirect_uri", self.redirect_uri.as_str()),
            pair("response_type", response_type),
        ];
        assert(pairs.deep_view() =~= auth_url_pairs(
            self.client_id@,
            scope_str_spec(self.permission.can_write(), self.permission.can_access_shared(), self.permission.has_offline_access()),
            self.redirect_uri@,
            response_type@,
        ));
        match append_query_pairs(AUTHORIZE_URL, &pairs) {
            Some(u) => Ok(u),
            None => {
                proof {
                    reveal_strlit("Cannot build the request");
                }
                Err(Error::invalid_request("Cannot build the request"))
            },
        }
    }

    /// Get the URL for web browser for token flow authentication.
    pub fn get_token_auth_url(&self) -> (r: Result<String>)
        ensures
            match self.auth_url_spec("token"@) {
                Some(u) => r is Ok && r->Ok_0@ == u,
                None => r is Err && r->Err_0.is_invalid_request(build_failure_reason()),
            },
    {
        self.get_auth_url("token")
    }

    /// Get the URL for web browser for code flow authentication.
    pub fn get_code_auth_url(&self) -> (r: Result<String>)
        ensures
            match self.auth_url_spec("code"@) {
                Some(u) => r is Ok && r->Ok_0@ == u,
                None => r is Err && r->Err_0.is_invalid_request(build_failure_reason()),
            },
    {
        self.get_auth_url("code")
    }

    fn request_authorize(&self, require_refresh: bool, params: Vec<(String, String)>) -> (r: TokenRequest)
        ensures
            r.require_refresh == require_refresh,
            yields(r.request, token_request_spec(params.deep_view())),
    {
        let request = match encode_form(&params) {
            Some(text) => RequestBuilder::new(Method::Post, TOKEN_URL.to_owned()).body(RequestBody::Text(text)),
            None => {
                proof {
                    reveal_strlit("Cannot build the request");
                }
                Err(Error::invalid_request("Cannot build the request"))
            },
        };
        TokenRequest { request, require_refresh }
    }

    /// Login using a code in code flow authentication.
    ///
    /// The response must carry a refresh token when the permission allows offline access.
    pub fn login_with_code(&self, code: &str, client_secret: Option<&str>) -> (r: TokenRequest)
        ensures
            r.require_refresh == self.permission_spec().has_offline_access(),
            yields(
                r.request,
                token_request_spec(
                    code_login_params(self.client_id_spec(), secret_or_empty(client_secret), code@, self.redirect_uri_spec()),
                ),
            ),
    {
        let secret = match client_secret {
            Some(s) => s,
            None => {
                proof {
                    reveal_strlit("");
                    assert(""@ =~= Seq::<char>::empty());
                }
                ""
            },
        };
        assert(secret@ == secret_or_empty(client_secret));
        let params = vec![
            pair("client_id", self.client_id.as_str()),
            pair("client_secret", secret),
            pair("code", code),
            pair("grant_type", "authorization_code"),
            pair("redirect_uri", self.redirect_uri.as_str()),
        ];
        assert(params.deep_view() =~= code_login_params(
            self.client_id@,
            secret_or_empty(client_secret),
            code@,
            self.redirect_uri@,
        ));
        self.request_authorize(self.permission.offline_access, params)
    }

    /// Login using a refresh token.
    ///
    /// This requires offline access, and the response must carry a new refresh token.
    pub fn login_with_refresh_token(&self, refresh_token: &str, client_secret: Option<&str>) -> (r: TokenRequest)
        requires
            self.permission_spec().has_offline_access(),
        ensures
            r.require_refresh,
            yields(
                r.request,
                token_request_spec(
                    refresh_login_params(
                        self.client_id_spec(),
                        secret_or_empty(client_secret),
                        self.redirect_uri_spec(),
                        refresh_token@,
                    ),
                ),
            ),
    {
        let secret = match client_secret {
            Some(s) => s,
            None => {
                proof {
                    reveal_strlit("");
                    assert(""@ =~= Seq::<char>::empty());
                }
                ""
            },
        };
        assert(secret@ == secret_or_empty(client_secret));
        let params = vec![
            pair("client_id", self.client_id.as_str()),
            pair("client_secret", secret),
            pair("grant_type", "refresh_token"),
            pair("redirect_uri", self.redirect_uri.as_str()),
            pair("refresh_token", refresh_token),
        ];
        assert(params.deep_view() =~= refresh_login_params(
            self.client_id@,
            secret_or_empty(client_secret),
            self.redirect_uri@,
            refresh_token@,
        ));
        self.request_authorize(true, params)
    }
}

/// Access tokens from AuthClient.
#[derive(Debug)]
#[non_exhaustive]
pub struct Token {
    /// The access token used for authorization in requests.
    pub token: String,
    /// The refresh token for refreshing (re-get) an access token when the previous one
    /// expired. Only provided in code flow with offline access permission.
    pub refresh_token: Option<String>,
}

impl TokenRequest {
    /// The token from the fields of a successful response: an error when a refresh token
    /// is required but missing.
    pub fn token_from(&self, access_token: String, refresh_token: Option<String>) -> (r: Result<Token>)
        ensures
            token_accepted(self.require_refresh, refresh_token is Some) ==> r is Ok && r->Ok_0.token
                == access_token && r->Ok_0.refresh_token == refresh_token,
            !token_accepted(self.require_refresh, refresh_token is Some) ==> r is Err
                && r->Err_0.is_unexpected(missing_refresh_reason()),
    {
        if !self.require_refresh || refresh_token.is_some() {
            Ok(Token { token: access_token, refresh_token })
        } else {
            proof {
                reveal_strlit("Missing field `refresh_token`");
            }
            Err(Error::unexpected_response("Missing field `refresh_token`"))
        }
    }
}

} // verus!
