use vstd::prelude::*;
use vstd::string::StringExecFns;

use crate::ids::{uuid_text, Uuid};
use crate::rate_limits::{
    parse_quota, parse_rate_limits, parse_rate_limits_spec, quotas_of, RateLimit, RateLimitScope, RateLimitView,
    RateLimits, Scoping,
};
use crate::retry::{backoff_delay, min_nat, RetryBackoff};
use crate::text::{chars_of, join, parse_u64, parse_u64_spec, split, trim, trim_end, trim_start};

verus! {

/// Rate limits returned by the upstream, before they are given a scope.
///
/// They come in two forms: a `Retry-After` header with a generic timeout for all categories, and
/// an `X-Sentry-Rate-Limits` header with fine-grained limits. `scope` attaches the identifiers of
/// a request and returns a fully populated `RateLimits`.
#[derive(Clone, Debug, PartialEq)]
pub struct UpstreamRateLimits {
    retry_after: Option<u64>,
    rate_limits: String,
}

/// The limits that a `Retry-After` value and an `X-Sentry-Rate-Limits` value give for `scoping`:
/// the parsed quotas, or, where there are none and a retry time was given, one limit on the key
/// for all categories.
pub open spec fn scoped_limits(retry_after: Option<u64>, header: Seq<char>, scoping: Scoping) -> Seq<
    RateLimitView,
> {
    let parsed = parse_rate_limits_spec(scoping, header);
    if parsed.len() == 0 && retry_after is Some {
        seq![
            RateLimitView {
                categories: Seq::empty(),
                scope: RateLimitScope::Key(scoping.key_id),
                reason_code: None,
                retry_after: retry_after->0,
            },
        ]
    } else {
        parsed
    }
}

impl UpstreamRateLimits {
    /// The seconds that the `Retry-After` header gave, if it gave a number.
    pub closed spec fn retry_after_secs(&self) -> Option<u64> {
        self.retry_after
    }

    /// The joined `X-Sentry-Rate-Limits` header.
    pub closed spec fn header(&self) -> Seq<char> {
        self.rate_limits@
    }

    /// Rate limits with no retry time and an empty header.
    pub fn new() -> (r: Self)
        ensures
            r.retry_after_secs() is None,
            r.header() == Seq::<char>::empty(),
    {
        UpstreamRateLimits { retry_after: None, rate_limits: String::new() }
    }

    /// Takes the `Retry-After` header into account; a value that is no number of seconds leaves
    /// the retry time as it was.
    pub fn retry_after(self, header: Option<&str>) -> (r: Self)
        ensures
            r.header() == self.header(),
            r.retry_after_secs() == (match header {
                Some(h) => match parse_u64_spec(h@) {
                    Some(v) => Some(v),
                    None => self.retry_after_secs(),
                },
                None => self.retry_after_secs(),
            }),
    {
        let mut this = self;
        if let Some(h) = header {
            let chars = chars_of(h);
            assert(chars@.subrange(0, chars@.len() as int) =~= h@);
            if let Some(v) = parse_u64(&chars, 0, chars.len()) {
                this.retry_after = Some(v);
            }
        }
        this
    }

    /// Sets the `X-Sentry-Rate-Limits` header; several values must be joined beforehand.
    pub fn rate_limits(self, header: String) -> (r: Self)
        ensures
            r.retry_after_secs() == self.retry_after_secs(),
            r.header() == header@,
    {
        let mut this = self;
        this.rate_limits = header;
        this
    }

    /// The rate limits that apply to the request that `scoping` identifies.
    pub fn scope(self, scoping: &Scoping) -> (r: RateLimits)
        ensures
            r@ == scoped_limits(self.retry_after_secs(), self.header(), *scoping),
    {
        let mut limits = parse_rate_limits(scoping, self.rate_limits.as_str());
        if !limits.is_limited() {
            if let Some(secs) = self.retry_after {
                limits.add(
                    RateLimit {
                        categories: Vec::new(),
                        scope: RateLimitScope::for_quota(scoping, crate::rate_limits::QuotaScope::Key),
                        reason_code: None,
                        retry_after: secs,
                    },
                );
                assert(limits@ =~= scoped_limits(self.retry_after_secs(), self.header(), *scoping));
            }
        }
        limits
    }
}

/// The body of an error response of the upstream.
#[derive(Clone, Debug, PartialEq)]
pub struct ApiErrorResponse {
    pub detail: Option<String>,
    pub causes: Vec<String>,
}

impl ApiErrorResponse {
    /// An error body without detail or causes.
    pub fn empty() -> (r: Self)
        ensures
            r.detail is None,
            r.causes@.len() == 0,
    {
        ApiErrorResponse { detail: None, causes: Vec::new() }
    }
}

/// Why a request to the upstream failed.
#[derive(Clone, Debug, PartialEq)]
pub enum UpstreamRequestError {
    /// A query was issued while the relay was not authenticated.
    NotAuthenticated,
    /// A query was issued without credentials configured.
    NoCredentials,
    /// The response body could not be decoded; holds the decoder's message.
    InvalidJson(String),
    /// The request could not be sent; holds the transport's message.
    SendFailed(String),
    /// The caller's request builder refused the request; holds its message.
    BuildFailed(String),
    /// The response body could not be read; holds the transport's message.
    PayloadFailed(String),
    /// The upstream answered 429.
    RateLimited(UpstreamRateLimits),
    /// The upstream answered with another status that is no success.
    ResponseError(u16, ApiErrorResponse),
}

pub open spec fn is_success_status(status: u16) -> bool {
    200 <= status <= 299
}

pub open spec fn is_client_error_status(status: u16) -> bool {
    400 <= status <= 499
}

/// The status with which the upstream says that requests are rate limited.
pub const TOO_MANY_REQUESTS: u16 = 429;

pub open spec fn string_views(v: Seq<String>) -> Seq<Seq<char>> {
    v.map_values(|s: String| s@)
}

/// Joins the values of a repeated header with `", "`, in order.
pub fn join_header_values(values: &Vec<String>) -> (r: String)
    ensures
        r@ == join(string_views(values@), ", "@),
{
    let mut r = String::new();
    let mut i: usize = 0;
    while i < values.len()
        invariant
            i <= values@.len(),
            r@ == join(string_views(values@).subrange(0, i as int), ", "@),
        decreases values@.len() - i,
    {
        let ghost before = string_views(values@).subrange(0, i as int);
        let ghost after = string_views(values@).subrange(0, i + 1);
        assert(after.drop_last() =~= before);
        assert(after.last() == values@[i as int]@);
        if i > 0 {
            r.append(", ");
        }
        r.append(values[i].as_str());
        proof {
            if i == 0 {
                assert(r@ =~= after[0]);
            } else {
                assert(r@ =~= join(before, ", "@) + ", "@ + after.last());
            }
        }
        i += 1;
    }
    assert(string_views(values@).subrange(0, i as int) =~= string_views(values@));
    r
}

/// The outcome of a response of the upstream, as `handle_response` classifies it.
pub open spec fn response_outcome_ok(
    status: u16,
    retry_after: Option<Seq<char>>,
    rate_limits: Seq<Seq<char>>,
    api_error: Option<ApiErrorResponse>,
    r: Result<(), UpstreamRequestError>,
) -> bool {
    if is_success_status(status) {
        r is Ok
    } else if status == TOO_MANY_REQUESTS {
        match r {
            Err(UpstreamRequestError::RateLimited(limits)) => {
                &&& limits.header() == join(rate_limits, ", "@)
                &&& limits.retry_after_secs() == (match retry_after {
                    Some(h) => parse_u64_spec(h),
                    None => None,
                })
            },
            _ => false,
        }
    } else {
        match r {
            Err(UpstreamRequestError::ResponseError(s, body)) => s == status && match api_error {
                Some(e) => body == e,
                None => body.detail is None && body.causes@.len() == 0,
            },
            _ => false,
        }
    }
}

/// Classifies a response of the upstream from its status and headers: success passes, 429 is
/// `RateLimited` with the `Retry-After` header and the joined `X-Sentry-Rate-Limits` values, and
/// any other status is `ResponseError` with the decoded error body, or an empty one where the
/// body could not be decoded. The caller reads the whole body before it calls this.
pub fn handle_response(
    status: u16,
    retry_after: Option<&str>,
    rate_limits: &Vec<String>,
    api_error: Option<ApiErrorResponse>,
) -> (r: Result<(), UpstreamRequestError>)
    ensures
        response_outcome_ok(
            status,
            match retry_after {
                Some(h) => Some(h@),
                None => None,
            },
            string_views(rate_limits@),
            api_error,
            r,
        ),
{
    if 200 <= status && status <= 299 {
        return Ok(());
    }
    if status == TOO_MANY_REQUESTS {
        let joined = join_header_values(rate_limits);
        let limits = UpstreamRateLimits::new().retry_after(retry_after).rate_limits(joined);
        return Err(UpstreamRequestError::RateLimited(limits));
    }
    let body = match api_error {
        Some(e) => e,
        None => ApiErrorResponse::empty(),
    };
    Err(UpstreamRequestError::ResponseError(status, body))
}

/// The stages of the registration handshake with the upstream.
#[derive(Clone, Copy, Debug, PartialEq, Eq, Hash, Structural)]
pub enum AuthState {
    Unknown,
    RegisterRequestChallenge,
    RegisterChallengeResponse,
    Registered,
    Error,
}

impl AuthState {
    /// Whether the state counts as authenticated: only `Registered` does.
    pub fn is_authenticated(self) -> (r: bool)
        ensures
            r == (self == AuthState::Registered),
    {
        self == AuthState::Registered
    }
}

/// How the relay runs; only a managed relay registers with the upstream.
#[derive(Clone, Copy, Debug, PartialEq, Eq, Structural)]
pub enum RelayMode {
    Proxy,
    Static,
    Managed,
    Capture,
}

/// An HTTP method.
#[derive(Clone, Copy, Debug, PartialEq, Eq, Structural)]
pub enum Method {
    Get,
    Post,
    Put,
    Patch,
    Delete,
}

/// The identity with which the relay signs its requests.
#[derive(Clone, Debug)]
pub struct Credentials {
    pub id: Uuid,
    pub public_key: String,
}

/// The settings that the upstream client reads.
#[derive(Clone, Debug)]
pub struct Config {
    pub relay_mode: RelayMode,
    pub credentials: Option<Credentials>,
    /// Scheme, authority and port of the upstream, without a trailing slash.
    pub upstream_url: String,
    /// The authority of the upstream.
    pub upstream_host: String,
    /// A `Host` header to send in place of the upstream's authority.
    pub http_host_header: Option<String>,
    /// The longest delay between two registration attempts, in milliseconds.
    pub http_max_retry_interval_ms: u64,
    /// The largest response body, in bytes, that a query decodes.
    pub max_api_payload_size: usize,
}

/// A request ready to be finished by the caller and sent.
#[derive(Clone, Debug)]
pub struct RequestTemplate {
    pub method: Method,
    pub url: String,
    /// The `Host` header.
    pub host: String,
    /// The `X-Sentry-Relay-Id` header, set where credentials are configured.
    pub relay_id: Option<String>,
}

/// A typed request to the upstream.
pub trait UpstreamQuery {
    spec fn spec_method(&self) -> Method;

    spec fn spec_path(&self) -> Seq<char>;

    fn method(&self) -> (r: Method)
        ensures
            r == self.spec_method(),
    ;

    fn path(&self) -> (r: String)
        ensures
            r@ == self.spec_path(),
    ;
}

/// The first leg of the handshake: the relay asks for a challenge.
#[derive(Clone, Debug)]
pub struct RegisterRequest {
    pub relay_id: Uuid,
    pub public_key: String,
}

/// The second leg of the handshake: the relay answers the challenge's token.
#[derive(Clone, Debug)]
pub struct RegisterResponse {
    pub relay_id: Uuid,
    pub token: String,
}

impl UpstreamQuery for RegisterRequest {
    open spec fn spec_method(&self) -> Method {
        Method::Post
    }

    open spec fn spec_path(&self) -> Seq<char> {
        "/api/0/relays/register/challenge/"@
    }

    fn method(&self) -> (r: Method) {
        Method::Post
    }

    fn path(&self) -> (r: String) {
        String::from_str("/api/0/relays/register/challenge/")
    }
}

impl UpstreamQuery for RegisterResponse {
    open spec fn spec_method(&self) -> Method {
        Method::Post
    }

    open spec fn spec_path(&self) -> Seq<char> {
        "/api/0/relays/register/response/"@
    }

    fn method(&self) -> (r: Method) {
        Method::Post
    }

    fn path(&self) -> (r: String) {
        String::from_str("/api/0/relays/register/response/")
    }
}

/// A request for an arbitrary path, sent whether or not the relay is registered.
#[derive(Clone, Debug)]
pub struct SendRequest {
    pub method: Method,
    pub path: String,
}

impl SendRequest {
    /// A request with `method` for `path`.
    pub fn new(method: Method, path: String) -> (r: SendRequest)
        ensures
            r.method == method,
            r.path == path,
    {
        SendRequest { method, path }
    }

    /// A `POST` request for `path`.
    pub fn post(path: String) -> (r: SendRequest)
        ensures
            r.method == Method::Post,
            r.path == path,
    {
        Self::new(Method::Post, path)
    }
}

/// Asks whether the relay is registered.
#[derive(Clone, Copy, Debug)]
pub struct IsAuthenticated;

/// A typed query sent on behalf of a caller; it needs registration.
#[derive(Clone, Debug)]
pub struct SendQuery<T: UpstreamQuery>(pub T);

/// Whether the handshake tries again after `err`: not after a client error (4xx), which the
/// upstream means as a permanent rejection.
pub open spec fn should_retry(err: UpstreamRequestError) -> bool {
    match err {
        UpstreamRequestError::ResponseError(status, _) => !is_client_error_status(status),
        _ => true,
    }
}

/// The `Host` header and URL of a request for `path` under `config`.
pub open spec fn template_of(config: Config, method: Method, path: Seq<char>, t: RequestTemplate) -> bool {
    &&& t.method == method
    &&& t.url@ == config.upstream_url@ + path
    &&& t.host@ == (match config.http_host_header {
        Some(h) => h@,
        None => config.upstream_host@,
    })
    &&& t.relay_id.is_some() == config.credentials.is_some()
    &&& (t.relay_id is Some ==> t.relay_id->0@ == uuid_text(config.credentials->0.id.value))
}

/// The client for the upstream: the registration state and the backoff between attempts.
///
/// It makes the decisions of the upstream actor; whoever runs it sends the requests it describes
/// and reports back what came of them.
pub struct UpstreamRelay {
    backoff: RetryBackoff,
    config: Config,
    auth_state: AuthState,
}

impl UpstreamRelay {
    pub closed spec fn state(&self) -> AuthState {
        self.auth_state
    }

    pub closed spec fn backoff_spec(&self) -> RetryBackoff {
        self.backoff
    }

    pub closed spec fn config_spec(&self) -> Config {
        self.config
    }

    pub closed spec fn wf(&self) -> bool {
        &&& self.backoff.wf()
        &&& self.backoff.max() == self.config.http_max_retry_interval_ms
    }

    /// A client that has not registered yet.
    pub fn new(config: Config) -> (r: Self)
        ensures
            r.wf(),
            r.state() == AuthState::Unknown,
            r.config_spec() == config,
            r.backoff_spec().upcoming() == backoff_delay(
                r.backoff_spec().initial(),
                config.http_max_retry_interval_ms as nat,
                0,
            ),
    {
        let backoff = RetryBackoff::with_max(config.http_max_retry_interval_ms);
        UpstreamRelay { backoff, config, auth_state: AuthState::Unknown }
    }

    /// The settings the client was made with.
    pub fn config(&self) -> (r: &Config)
        ensures
            *r == self.config_spec(),
    {
        &self.config
    }

    /// The current registration state.
    pub fn auth_state(&self) -> (r: AuthState)
        ensures
            r == self.state(),
    {
        self.auth_state
    }

    /// Whether the client is registered.
    pub fn is_authenticated(&self) -> (r: bool)
        ensures
            r == (self.state() == AuthState::Registered),
    {
        self.auth_state.is_authenticated()
    }

    /// Fails with `NotAuthenticated` unless the client is registered.
    pub fn assert_authenticated(&self) -> (r: Result<(), UpstreamRequestError>)
        ensures
            r is Ok <==> self.state() == AuthState::Registered,
            r is Err ==> r == Err::<(), _>(UpstreamRequestError::NotAuthenticated),
    {
        if !self.auth_state.is_authenticated() {
            Err(UpstreamRequestError::NotAuthenticated)
        } else {
            Ok(())
        }
    }

    /// Called when the client starts: resets the backoff and returns whether a handshake is to
    /// be started, which a managed relay does.
    pub fn started(&mut self) -> (r: bool)
        requires
            old(self).wf(),
        ensures
            final(self).wf(),
            r == (old(self).config_spec().relay_mode == RelayMode::Managed),
            final(self).state() == old(self).state(),
            final(self).config_spec() == old(self).config_spec(),
            final(self).backoff_spec().initial() == old(self).backoff_spec().initial(),
            final(self).backoff_spec().upcoming() == backoff_delay(
                old(self).backoff_spec().initial(),
                old(self).backoff_spec().max(),
                0,
            ),
    {
        self.backoff.reset();
        self.config.relay_mode == RelayMode::Managed
    }

    /// The request for `path`: the method and URL, the `Host` header (the configured override or
    /// the upstream's authority) and the relay's id where credentials are configured.
    pub fn send_request(&self, method: Method, path: &str) -> (r: RequestTemplate)
        ensures
            template_of(self.config_spec(), method, path@, r),
    {
        let host = match &self.config.http_host_header {
            Some(h) => h.clone(),
            None => self.config.upstream_host.clone(),
        };
        let url = self.config.upstream_url.clone().concat(path);
        let relay_id = match &self.config.credentials {
            Some(c) => Some(c.id.to_text()),
            None => None,
        };
        RequestTemplate { method, url, host, relay_id }
    }

    /// The request for a typed query; fails with `NoCredentials` where none are configured.
    /// Registration is not checked here: the handshake itself sends queries.
    pub fn send_query<Q: UpstreamQuery>(&self, query: &Q) -> (r: Result<RequestTemplate, UpstreamRequestError>)
        ensures
            r is Err <==> self.config_spec().credentials is None,
            r is Err ==> r == Err::<RequestTemplate, _>(UpstreamRequestError::NoCredentials),
            r is Ok ==> template_of(self.config_spec(), query.spec_method(), query.spec_path(), r->Ok_0),
    {
        if self.config.credentials.is_none() {
            return Err(UpstreamRequestError::NoCredentials);
        }
        let path = query.path();
        Ok(self.send_request(query.method(), path.as_str()))
    }

    /// A query sent on behalf of a caller: refused with `NotAuthenticated`, and no request made,
    /// unless the client is registered.
    pub fn handle_send_query<Q: UpstreamQuery>(&self, message: &SendQuery<Q>) -> (r: Result<RequestTemplate, UpstreamRequestError>)
        ensures
            self.state() != AuthState::Registered ==> r == Err::<RequestTemplate, _>(
                UpstreamRequestError::NotAuthenticated,
            ),
            self.state() == AuthState::Registered && self.config_spec().credentials is None ==> r
                == Err::<RequestTemplate, _>(UpstreamRequestError::NoCredentials),
            r is Ok <==> self.state() == AuthState::Registered && self.config_spec().credentials is Some,
            r is Ok ==> template_of(self.config_spec(), message.0.spec_method(), message.0.spec_path(), r->Ok_0),
    {
        match self.assert_authenticated() {
            Err(e) => Err(e),
            Ok(()) => self.send_query(&message.0),
        }
    }

    /// Answers `IsAuthenticated`.
    pub fn handle_is_authenticated(&self, _msg: IsAuthenticated) -> (r: bool)
        ensures
            r == (self.state() == AuthState::Registered),
    {
        self.is_authenticated()
    }

    /// Answers `SendRequest`: the request, which needs no registration.
    pub fn handle_send_request(&self, msg: &SendRequest) -> (r: RequestTemplate)
        ensures
            template_of(self.config_spec(), msg.method, msg.path@, r),
    {
        self.send_request(msg.method, msg.path.as_str())
    }

    /// Starts a handshake: without credentials nothing happens and `None` comes back; otherwise
    /// the state becomes `RegisterRequestChallenge` and the first leg's query comes back.
    pub fn begin_authentication(&mut self) -> (r: Option<RegisterRequest>)
        requires
            old(self).wf(),
        ensures
            final(self).wf(),
            final(self).config_spec() == old(self).config_spec(),
            final(self).backoff_spec() == old(self).backoff_spec(),
            r is Some <==> old(self).config_spec().credentials is Some,
            r is Some ==> final(self).state() == AuthState::RegisterRequestChallenge
                && r->0.relay_id == old(self).config_spec().credentials->0.id
                && r->0.public_key == old(self).config_spec().credentials->0.public_key,
            r is None ==> final(self).state() == old(self).state(),
    {
        match &self.config.credentials {
            None => None,
            Some(c) => {
                let request = RegisterRequest { relay_id: c.id, public_key: c.public_key.clone() };
                self.auth_state = AuthState::RegisterRequestChallenge;
                Some(request)
            },
        }
    }

    /// The first leg succeeded with a challenge: the state becomes `RegisterChallengeResponse`
    /// and the second leg's query comes back.
    pub fn challenge_received(&mut self, relay_id: Uuid, token: String) -> (r: RegisterResponse)
        requires
            old(self).wf(),
        ensures
            final(self).wf(),
            final(self).config_spec() == old(self).config_spec(),
            final(self).backoff_spec() == old(self).backoff_spec(),
            final(self).state() == AuthState::RegisterChallengeResponse,
            r.relay_id == relay_id,
            r.token == token,
    {
        self.auth_state = AuthState::RegisterChallengeResponse;
        RegisterResponse { relay_id, token }
    }

    /// The second leg succeeded: the client is registered and the backoff starts over.
    pub fn registration_completed(&mut self)
        requires
            old(self).wf(),
        ensures
            final(self).wf(),
            final(self).config_spec() == old(self).config_spec(),
            final(self).state() == AuthState::Registered,
            final(self).backoff_spec().initial() == old(self).backoff_spec().initial(),
            final(self).backoff_spec().upcoming() == backoff_delay(
                old(self).backoff_spec().initial(),
                old(self).backoff_spec().max(),
                0,
            ),
    {
        self.backoff.reset();
        self.auth_state = AuthState::Registered;
    }

    /// A leg of the handshake failed with `err`: the state becomes `Error`, and the delay after
    /// which to try again comes back, unless `err` is a client error (4xx), after which the
    /// handshake is not tried again.
    pub fn authentication_failed(&mut self, err: &UpstreamRequestError) -> (r: Option<u64>)
        requires
            old(self).wf(),
        ensures
            final(self).wf(),
            final(self).config_spec() == old(self).config_spec(),
            final(self).state() == AuthState::Error,
            r is Some <==> should_retry(*err),
            r is Some ==> r->0 == old(self).backoff_spec().upcoming()
                && final(self).backoff_spec().initial() == old(self).backoff_spec().initial()
                && final(self).backoff_spec().upcoming() == min_nat(
                2 * old(self).backoff_spec().upcoming(),
                old(self).backoff_spec().max(),
            ),
            r is None ==> final(self).backoff_spec() == old(self).backoff_spec(),
    {
        self.auth_state = AuthState::Error;
        let retry = match err {
            UpstreamRequestError::ResponseError(status, _) => !(400 <= *status && *status <= 499),
            _ => true,
        };
        if retry {
            Some(self.backoff.next_backoff())
        } else {
            None
        }
    }
}

/// A client error (4xx) ends the handshake for good; a server error (5xx) is tried again.
pub proof fn lemma_client_errors_are_final(status: u16, body: ApiErrorResponse)
    ensures
        400 <= status <= 499 ==> !should_retry(UpstreamRequestError::ResponseError(status, body)),
        500 <= status <= 599 ==> should_retry(UpstreamRequestError::ResponseError(status, body)),
{
}

/// With a `Retry-After` of `secs` and no `X-Sentry-Rate-Limits` header, any scoping gives
/// exactly one limit: on the key, for all categories, without reason, for `secs` seconds.
pub proof fn lemma_retry_after_fallback(scoping: Scoping, secs: u64)
    ensures
        scoped_limits(Some(secs), Seq::empty(), scoping) == seq![
            RateLimitView {
                categories: Seq::empty(),
                scope: RateLimitScope::Key(scoping.key_id),
                reason_code: None,
                retry_after: secs,
            },
        ],
{
    let e = Seq::<char>::empty();
    let parts = split(e, ',');
    assert(parts == seq![e]);
    assert(trim_end(trim_start(e)) == e);
    assert(split(e, ':') == seq![e]);
    assert(parse_u64_spec(e) is None);
    assert(parse_quota(trim(e), scoping) is None);
    assert(parts.drop_last() =~= Seq::<Seq<char>>::empty());
    assert(parts.last() == e);
    assert(quotas_of(Seq::<Seq<char>>::empty(), scoping) == Seq::<RateLimitView>::empty());
    assert(parse_quota(trim(parts.last()), scoping) is None);
    assert(quotas_of(parts, scoping) =~= Seq::<RateLimitView>::empty());
}

} // verus!
