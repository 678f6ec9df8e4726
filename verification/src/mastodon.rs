//! The Mastodon side of the mirror: account data, the authorization
//! request and the endpoints of the API.

use vstd::prelude::*;

use crate::error;

verus! {

/// The application credentials that Mastodon reports for an account.
#[derive(Debug)]
pub struct AppCredentials {
    pub id: String,
    pub username: String,
    pub acct: String,
    pub display_name: String,
    pub locked: bool,
    pub bot: bool,
    pub created_at: String,
    pub note: String,
    pub url: String,
    pub avatar: String,
    pub header: String,
    pub header_static: String,
    pub followers_count: u32,
    pub following_count: u32,
    pub statuses_count: u32,
    pub last_status_at: Option<String>,
    pub source: Source,
    pub fields: Vec<String>,
    pub emojis: Vec<String>,
}

/// The source settings of an account.
#[derive(Debug)]
pub struct Source {
    pub privacy: String,
    pub sensitive: bool,
    pub langugae: Option<String>,
    pub note: String,
    pub fields: Vec<String>,
    pub follow_requests_count: u32,
}

impl Default for Source {
    fn default() -> (s: Self)
        ensures
            s.privacy@ == Seq::<char>::empty(),
            !s.sensitive,
            s.langugae is None,
            s.note@ == Seq::<char>::empty(),
            s.fields@ == Seq::<String>::empty(),
            s.follow_requests_count == 0,
    {
        Source {
            privacy: String::new(),
            sensitive: false,
            langugae: None,
            note: String::new(),
            fields: Vec::new(),
            follow_requests_count: 0,
        }
    }
}

impl Default for AppCredentials {
    fn default() -> (c: Self)
        ensures
            c.id@ == Seq::<char>::empty(),
            c.username@ == Seq::<char>::empty(),
            c.acct@ == Seq::<char>::empty(),
            c.display_name@ == Seq::<char>::empty(),
            !c.locked,
            !c.bot,
            c.created_at@ == Seq::<char>::empty(),
            c.note@ == Seq::<char>::empty(),
            c.url@ == Seq::<char>::empty(),
            c.avatar@ == Seq::<char>::empty(),
            c.header@ == Seq::<char>::empty(),
            c.header_static@ == Seq::<char>::empty(),
            c.followers_count == 0,
            c.following_count == 0,
            c.statuses_count == 0,
            c.last_status_at is None,
            c.source.privacy@ == Seq::<char>::empty(),
            !c.source.sensitive,
            c.source.langugae is None,
            c.source.note@ == Seq::<char>::empty(),
            c.source.fields@ == Seq::<String>::empty(),
            c.source.follow_requests_count == 0,
            c.fields@ == Seq::<String>::empty(),
            c.emojis@ == Seq::<String>::empty(),
    {
        AppCredentials {
            id: String::new(),
            username: String::new(),
            acct: String::new(),
            display_name: String::new(),
            locked: false,
            bot: false,
            created_at: String::new(),
            note: String::new(),
            url: String::new(),
            avatar: String::new(),
            header: String::new(),
            header_static: String::new(),
            followers_count: 0,
            following_count: 0,
            statuses_count: 0,
            last_status_at: None,
            source: Source::default(),
            fields: Vec::new(),
            emojis: Vec::new(),
        }
    }
}

/// The account data of one Mastodon mirror, as configured.
#[derive(Debug)]
pub struct Data {
    pub client_id: String,
    pub client_secret: String,
    pub redirect_uri: String,
    pub scope: String,
    pub grant_type: String,
    pub base: String,
    pub code: String,
    pub username: String,
    pub password: String,
}

impl Default for Data {
    fn default() -> (d: Self)
        ensures
            d.client_id@ == Seq::<char>::empty(),
            d.client_secret@ == Seq::<char>::empty(),
            d.redirect_uri@ == Seq::<char>::empty(),
            d.scope@ == Seq::<char>::empty(),
            d.grant_type@ == Seq::<char>::empty(),
            d.base@ == Seq::<char>::empty(),
            d.code@ == Seq::<char>::empty(),
            d.username@ == Seq::<char>::empty(),
            d.password@ == Seq::<char>::empty(),
    {
        Data {
            client_id: String::new(),
            client_secret: String::new(),
            redirect_uri: String::new(),
            scope: String::new(),
            grant_type: String::new(),
            base: String::new(),
            code: String::new(),
            username: String::new(),
            password: String::new(),
        }
    }
}

/// The grant type that a configuration without one gets.
pub fn init_grant_type() -> (r: String)
    ensures
        r@ == "client_credentials"@,
{
    String::from_str("client_credentials")
}

/// The query of an authorization request for an application.
#[derive(Debug)]
pub struct AuthRequest<'a> {
    pub client_id: &'a str,
    pub redirect_uri: &'a str,
    pub scope: &'a str,
    pub response_type: &'a str,
}

impl Data {
    /// The authorization request of this account: its client id,
    /// redirect address and scope, asking for a code.
    pub fn authorize(&self) -> (r: AuthRequest<'_>)
        ensures
            r.client_id@ == self.client_id@,
            r.redirect_uri@ == self.redirect_uri@,
            r.scope@ == self.scope@,
            r.response_type@ == "code"@,
    {
        AuthRequest {
            client_id: self.client_id.as_str(),
            redirect_uri: self.redirect_uri.as_str(),
            scope: self.scope.as_str(),
            response_type: "code",
        }
    }
}

/// What `serde_urlencoded::to_string` gives for a sequence of string
/// pairs: their `application/x-www-form-urlencoded` form.
pub uninterp spec fn form_urlencoded(pairs: Seq<(Seq<char>, Seq<char>)>) -> Seq<char>;

/// Encodes string pairs as `application/x-www-form-urlencoded`.
///
/// Calls `serde_urlencoded::to_string`. On a sequence of pairs of strings
/// it succeeds: the sequence serializer hands each pair to the pair
/// serializer, which takes a string key and a string value without error.
/// The encoded text is a function of the pairs alone; the contract names
/// it `form_urlencoded` and says nothing more of it.
#[verifier::external_body]
fn form_urlencode(pairs: &Vec<(String, String)>) -> (r: Result<String, serde_urlencoded::ser::Error>)
    ensures
        r is Ok,
        r->Ok_0@ == form_urlencoded(pairs.deep_view()),
{
    serde_urlencoded::to_string(pairs)
}

/// The field names and values of an authorization request, in the order
/// in which the request declares them.
pub open spec fn auth_pairs(
    client_id: Seq<char>,
    redirect_uri: Seq<char>,
    scope: Seq<char>,
    response_type: Seq<char>,
) -> Seq<(Seq<char>, Seq<char>)> {
    seq![
        ("client_id"@, client_id),
        ("redirect_uri"@, redirect_uri),
        ("scope"@, scope),
        ("response_type"@, response_type),
    ]
}

/// The pairs of an authorization request are its four field names, in
/// order, each with that field's value unchanged.
pub proof fn lemma_auth_pairs_keep_fields(
    client_id: Seq<char>,
    redirect_uri: Seq<char>,
    scope: Seq<char>,
    response_type: Seq<char>,
)
    ensures
        auth_pairs(client_id, redirect_uri, scope, response_type).len() == 4,
        auth_pairs(client_id, redirect_uri, scope, response_type)[0] == ("client_id"@, client_id),
        auth_pairs(client_id, redirect_uri, scope, response_type)[1] == ("redirect_uri"@, redirect_uri),
        auth_pairs(client_id, redirect_uri, scope, response_type)[2] == ("scope"@, scope),
        auth_pairs(client_id, redirect_uri, scope, response_type)[3] == ("response_type"@, response_type),
{
}

/// Appends an encoded query to `base`; an encoding that failed becomes the
/// library's error.
pub fn finish_url(base: String, encoded: Result<String, serde_urlencoded::ser::Error>) -> (r: Result<
    String,
    error::Mastodon,
>)
    ensures
        match encoded {
            Ok(q) => r matches Ok(u) && u@ == base@ + q@,
            Err(e) => r == Err::<String, error::Mastodon>(error::Mastodon::SerdeUrl(e)),
        },
{
    match encoded {
        Ok(q) => {
            let mut base = base;
            base.append(q.as_str());
            Ok(base)
        },
        Err(e) => Err(error::Mastodon::SerdeUrl(e)),
    }
}

impl<'a> AuthRequest<'a> {
    /// The address of the authorization request: `base` followed by the
    /// form encoding of the request's fields. Encoding text never fails.
    pub fn url(self, base: String) -> (r: Result<String, error::Mastodon>)
        ensures
            r matches Ok(u) && u@ == base@ + form_urlencoded(
                auth_pairs(self.client_id@, self.redirect_uri@, self.scope@, self.response_type@),
            ),
            r matches Ok(u) && u@ == base@ + form_urlencoded(
                seq![
                    ("client_id"@, self.client_id@),
                    ("redirect_uri"@, self.redirect_uri@),
                    ("scope"@, self.scope@),
                    ("response_type"@, self.response_type@),
                ],
            ),
    {
        let mut pairs: Vec<(String, String)> = Vec::new();
        pairs.push((String::from_str("client_id"), String::from_str(self.client_id)));
        pairs.push((String::from_str("redirect_uri"), String::from_str(self.redirect_uri)));
        pairs.push((String::from_str("scope"), String::from_str(self.scope)));
        pairs.push((String::from_str("response_type"), String::from_str(self.response_type)));
        assert(pairs.deep_view() =~= auth_pairs(
            self.client_id@,
            self.redirect_uri@,
            self.scope@,
            self.response_type@,
        ));
        finish_url(base, form_urlencode(&pairs))
    }
}

/// A Mastodon account that the mirror posts to. Times are seconds on the
/// program's clock.
#[derive(Debug)]
pub struct Api {
    pub expiration: u64,
    pub created_at: u64,
    pub token: String,
    pub auth_data: Data,
}

/// `base` followed by `path`.
pub open spec fn endpoint(base: Seq<char>, path: Seq<char>) -> Seq<char> {
    base + path
}

impl Api {
    /// Sets up the account at time `now`; its token is the configured code.
    pub fn new(data: Data, now: u64) -> (r: Result<Self, error::Mastodon>)
        ensures
            r matches Ok(api) && api.token@ == data.code@ && api.auth_data == data
                && api.expiration == now && api.created_at == now,
    {
        let token = data.code.clone();
        Ok(Api { expiration: now, token, auth_data: data, created_at: now })
    }

    /// The endpoint to which pictures are uploaded.
    pub fn media_endpoint(&self) -> (r: String)
        ensures
            r@ == endpoint(self.auth_data.base@, "/api/v1/media"@),
    {
        let mut r = self.auth_data.base.clone();
        r.append("/api/v1/media");
        r
    }

    /// The endpoint to which statuses are posted.
    pub fn statuses_endpoint(&self) -> (r: String)
        ensures
            r@ == endpoint(self.auth_data.base@, "/api/v1/statuses"@),
    {
        let mut r = self.auth_data.base.clone();
        r.append("/api/v1/statuses");
        r
    }

    /// The endpoint that checks the account's credentials.
    pub fn verify_credentials_endpoint(&self) -> (r: String)
        ensures
            r@ == endpoint(self.auth_data.base@, "/api/v1/accounts/verify_credentials"@),
    {
        let mut r = self.auth_data.base.clone();
        r.append("/api/v1/accounts/verify_credentials");
        r
    }
}

} // verus!
