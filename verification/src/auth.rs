//! Token lifetime and the texts of the OAuth2 client-credentials exchange.
//!
//! Times are milliseconds on a monotonic clock that the caller reads. The
//! token request itself, and the lock that keeps concurrent callers to one
//! request, belong to the caller; this module decides when a cached token
//! may still be served and what a new one replaces.

use vstd::prelude::*;
use crate::error::AuthError;
use crate::text::{chars_of, extend, head_before, leading_segments, pairs, string_of};

verus! {

/// A token is served only while it has more than this long to live, in milliseconds.
pub const SAFETY_MARGIN_MS: u64 = 60_000;

/// A bearer token and the time at which it expires.
#[derive(Debug, Clone)]
pub struct CachedToken {
    pub access_token: String,
    /// Expiry, in milliseconds on the caller's clock.
    pub expires_at: u64,
}

impl CachedToken {
    /// The token has more than the safety margin left at time `now`.
    pub open spec fn valid_at(&self, now: u64) -> bool {
        self.expires_at > now + SAFETY_MARGIN_MS
    }

    /// Whether the token may still be served at time `now`: its expiry lies
    /// more than the safety margin ahead.
    pub fn is_valid(&self, now: u64) -> (r: bool)
        ensures
            r == self.valid_at(now),
    {
        match now.checked_add(SAFETY_MARGIN_MS) {
            Some(limit) => self.expires_at > limit,
            None => false,
        }
    }
}

/// At most one cached token.
#[derive(Debug)]
pub struct TokenCache {
    pub slot: Option<CachedToken>,
}

impl TokenCache {
    /// The token that the cache serves at time `now`, if any.
    pub open spec fn served_at(&self, now: u64) -> Option<Seq<char>> {
        match self.slot {
            Some(t) => if t.valid_at(now) {
                Some(t.access_token@)
            } else {
                None
            },
            None => None,
        }
    }

    /// An empty cache.
    pub fn new() -> (c: TokenCache)
        ensures
            c.slot is None,
    {
        TokenCache { slot: None }
    }

    /// The cached token, where there is one and it is valid at `now`.
    pub fn lookup(&self, now: u64) -> (r: Option<String>)
        ensures
            match r {
                Some(t) => self.served_at(now) == Some(t@),
                None => self.served_at(now) is None,
            },
    {
        match &self.slot {
            Some(t) => {
                if t.is_valid(now) {
                    Some(t.access_token.clone())
                } else {
                    None
                }
            },
            None => None,
        }
    }

    /// Replaces whatever is cached by a token obtained at `now` that lives
    /// for `expires_in` seconds.
    pub fn store(&mut self, access_token: String, now: u64, expires_in: u64)
        requires
            now + expires_in * 1000 <= u64::MAX,
        ensures
            final(self).slot == Some(
                CachedToken { access_token, expires_at: (now + expires_in * 1000) as u64 },
            ),
    {
        let life: u64 = expires_in * 1000;
        self.slot = Some(CachedToken { access_token, expires_at: now + life });
    }

    /// Evicts the cached token.
    pub fn clear(&mut self)
        ensures
            final(self).slot is None,
    {
        self.slot = None;
    }
}

/// The texts of the identity provider's token endpoint around the tenant.
pub open spec fn token_endpoint_of(tenant: Seq<char>) -> Seq<char> {
    "https://login.microsoftonline.com/"@ + tenant + "/oauth2/v2.0/token"@
}

/// The scope of a resource: the resource, a slash unless it ends in one,
/// then `.default`.
pub open spec fn scope_of(resource: Seq<char>) -> Seq<char> {
    if resource.len() > 0 && resource.last() == '/' {
        resource + ".default"@
    } else {
        resource + "/.default"@
    }
}

/// The message of a refused token request.
pub open spec fn refusal_message(status: Seq<char>, body: Seq<char>) -> Seq<char> {
    "Status: "@ + status + ", Body: "@ + body
}

/// The token endpoint of a tenant.
pub fn token_endpoint(tenant_id: &str) -> (r: String)
    ensures
        r@ == token_endpoint_of(tenant_id@),
{
    let mut out = chars_of("https://login.microsoftonline.com/");
    extend(&mut out, &chars_of(tenant_id));
    extend(&mut out, &chars_of("/oauth2/v2.0/token"));
    string_of(&out)
}

/// The scope to ask for when a token for `resource` is wanted.
pub fn scope_for(resource: &str) -> (r: String)
    ensures
        r@ == scope_of(resource@),
{
    let mut out = chars_of(resource);
    let n: usize = out.len();
    if n > 0 && out[n - 1] == '/' {
        extend(&mut out, &chars_of(".default"));
    } else {
        extend(&mut out, &chars_of("/.default"));
    }
    string_of(&out)
}

/// The error for a token request that the identity provider refused.
pub fn token_request_failed(status: &str, body: &str) -> (e: AuthError)
    ensures
        match e {
            AuthError::TokenRequestFailed(m) => m@ == refusal_message(status@, body@),
            _ => false,
        },
{
    let mut out = chars_of("Status: ");
    extend(&mut out, &chars_of(status));
    extend(&mut out, &chars_of(", Body: "));
    extend(&mut out, &chars_of(body));
    AuthError::TokenRequestFailed(string_of(&out))
}

/// The message of a token response that could not be decoded.
pub open spec fn undecoded_message(detail: Seq<char>) -> Seq<char> {
    "Failed to parse token response: "@ + detail
}

/// The error for a token response that could not be decoded; `detail` is
/// what the decoder said.
pub fn token_parse_failed(detail: &str) -> (e: AuthError)
    ensures
        match e {
            AuthError::ParseError(m) => m@ == undecoded_message(detail@),
            _ => false,
        },
{
    let mut out = chars_of("Failed to parse token response: ");
    extend(&mut out, &chars_of(detail));
    AuthError::ParseError(string_of(&out))
}

/// The scheme and host of a parsed URL.
#[derive(Debug, Clone)]
pub struct Origin {
    pub scheme: String,
    pub host: Option<String>,
}

/// The scheme and host that the URL parser finds in a text; `None` where
/// the text does not parse as a URL.
pub uninterp spec fn url_origin(endpoint: Seq<char>) -> Option<(Seq<char>, Option<Seq<char>>)>;

/// The view of an optional origin.
pub open spec fn origin_view(origin: Option<Origin>) -> Option<(Seq<char>, Option<Seq<char>>)> {
    match origin {
        Some(o) => Some(
            (
                o.scheme@,
                match o.host {
                    Some(h) => Some(h@),
                    None => None,
                },
            ),
        ),
        None => None,
    }
}

/// Runs `reqwest::Url::parse` on `endpoint` and reads `scheme()` and
/// `host_str()` off the result. The parser depends on its input alone, so
/// its findings have a name, `url_origin`; nothing more is claimed of them.
#[verifier::external_body]
fn parse_origin(endpoint: &str) -> (r: Option<Origin>)
    ensures
        origin_view(r) == url_origin(endpoint@),
{
    match reqwest::Url::parse(endpoint) {
        Ok(url) => Some(
            Origin { scheme: url.scheme().to_string(), host: url.host_str().map(String::from) },
        ),
        Err(_) => None,
    }
}

/// The resource of a service root: `scheme://host` of its origin, with an
/// empty host where the URL has none; without an origin, the text up to its
/// third slash.
pub open spec fn resource_of(
    endpoint: Seq<char>,
    origin: Option<(Seq<char>, Option<Seq<char>>)>,
) -> Seq<char> {
    match origin {
        Some((scheme, host)) => scheme + "://"@ + match host {
            Some(h) => h,
            None => Seq::empty(),
        },
        None => leading_segments(endpoint, '/', 3),
    }
}

/// The resource of a service root whose origin is already known.
pub fn resource_from_origin(endpoint: &str, origin: Option<Origin>) -> (r: String)
    ensures
        r@ == resource_of(endpoint@, origin_view(origin)),
{
    match origin {
        Some(o) => {
            let mut out = chars_of(o.scheme.as_str());
            extend(&mut out, &chars_of("://"));
            match o.host {
                Some(h) => {
                    extend(&mut out, &chars_of(h.as_str()));
                },
                None => {
                    assert(out@ + Seq::<char>::empty() =~= out@);
                },
            }
            string_of(&out)
        },
        None => string_of(&head_before(&chars_of(endpoint), '/', 3)),
    }
}

/// The resource to ask a token for, given the service root.
pub fn resource_from_endpoint(endpoint: &str) -> (r: String)
    ensures
        r@ == resource_of(endpoint@, url_origin(endpoint@)),
{
    resource_from_origin(endpoint, parse_origin(endpoint))
}

/// The credentials of an application and the token they last obtained.
#[derive(Debug)]
pub struct AzureAdAuth {
    pub tenant_id: String,
    pub client_id: String,
    pub client_secret: String,
    pub cache: TokenCache,
}

/// A token request: where to post, and the form fields in order.
#[derive(Debug)]
pub struct TokenRequest {
    pub url: String,
    pub form: Vec<(String, String)>,
}

/// What a caller that wants a token does next.
#[derive(Debug)]
pub enum TokenStep {
    /// Use this token; nothing is sent.
    Serve(String),
    /// Post this request to the identity provider.
    Request(TokenRequest),
}

/// The form of a client-credentials request.
pub open spec fn token_form_of(
    client_id: Seq<char>,
    client_secret: Seq<char>,
    resource: Seq<char>,
) -> Seq<(Seq<char>, Seq<char>)> {
    seq![
        ("grant_type"@, "client_credentials"@),
        ("client_id"@, client_id),
        ("client_secret"@, client_secret),
        ("scope"@, scope_of(resource)),
    ]
}

/// An owned copy of a text.
fn owned(text: &str) -> (r: String)
    ensures
        r@ == text@,
{
    string_of(&chars_of(text))
}

impl AzureAdAuth {
    /// Credentials with nothing cached.
    pub fn new(tenant_id: String, client_id: String, client_secret: String) -> (a: AzureAdAuth)
        ensures
            a.tenant_id == tenant_id,
            a.client_id == client_id,
            a.client_secret == client_secret,
            a.cache.slot is None,
    {
        AzureAdAuth { tenant_id, client_id, client_secret, cache: TokenCache::new() }
    }

    /// The token endpoint of this tenant.
    pub fn token_endpoint(&self) -> (r: String)
        ensures
            r@ == token_endpoint_of(self.tenant_id@),
    {
        token_endpoint(self.tenant_id.as_str())
    }

    /// The request that obtains a token for `resource`.
    pub fn token_request(&self, resource: &str) -> (r: TokenRequest)
        ensures
            r.url@ == token_endpoint_of(self.tenant_id@),
            pairs(r.form@) == token_form_of(self.client_id@, self.client_secret@, resource@),
    {
        let mut form: Vec<(String, String)> = Vec::new();
        form.push((owned("grant_type"), owned("client_credentials")));
        form.push((owned("client_id"), self.client_id.clone()));
        form.push((owned("client_secret"), self.client_secret.clone()));
        form.push((owned("scope"), scope_for(resource)));
        assert(pairs(form@) =~= token_form_of(self.client_id@, self.client_secret@, resource@));
        TokenRequest { url: self.token_endpoint(), form }
    }

    /// What to do at time `now` to have a token for `resource`: serve the
    /// cached one while it is valid, else ask for a new one.
    pub fn next_step(&self, resource: &str, now: u64) -> (r: TokenStep)
        ensures
            match r {
                TokenStep::Serve(t) => self.cache.served_at(now) == Some(t@),
                TokenStep::Request(req) => {
                    &&& self.cache.served_at(now) is None
                    &&& req.url@ == token_endpoint_of(self.tenant_id@)
                    &&& pairs(req.form@) == token_form_of(
                        self.client_id@,
                        self.client_secret@,
                        resource@,
                    )
                },
            },
    {
        match self.cache.lookup(now) {
            Some(t) => TokenStep::Serve(t),
            None => TokenStep::Request(self.token_request(resource)),
        }
    }

    /// Takes the answer to a token request made at `now`: the token
    /// replaces the cached one and is handed back.
    pub fn accept(&mut self, access_token: String, expires_in: u64, now: u64) -> (r: String)
        requires
            now + expires_in * 1000 <= u64::MAX,
        ensures
            r@ == access_token@,
            final(self).cache.slot == Some(
                CachedToken { access_token, expires_at: (now + expires_in * 1000) as u64 },
            ),
            final(self).tenant_id == old(self).tenant_id,
            final(self).client_id == old(self).client_id,
            final(self).client_secret == old(self).client_secret,
    {
        let handed = access_token.clone();
        self.cache.store(access_token, now, expires_in);
        handed
    }

    /// Evicts the cached token, so that the next caller asks for a new one.
    pub fn clear_cache(&mut self)
        ensures
            final(self).cache.slot is None,
            final(self).tenant_id == old(self).tenant_id,
            final(self).client_id == old(self).client_id,
            final(self).client_secret == old(self).client_secret,
    {
        self.cache.clear();
    }
}

/// A token that was stored is served, without a new request, to every
/// caller that comes while it has more than the safety margin to live, and
/// to none that comes later.
pub proof fn stored_token_is_served_while_valid(
    cache: TokenCache,
    access_token: String,
    expires_at: u64,
    later: u64,
)
    requires
        cache.slot == Some(CachedToken { access_token, expires_at }),
    ensures
        later + SAFETY_MARGIN_MS < expires_at ==> cache.served_at(later) == Some(access_token@),
        later + SAFETY_MARGIN_MS >= expires_at ==> cache.served_at(later) is None,
{
}

/// An empty cache serves nothing.
pub proof fn empty_cache_serves_nothing(cache: TokenCache, now: u64)
    requires
        cache.slot is None,
    ensures
        cache.served_at(now) is None,
{
}

} // verus!
