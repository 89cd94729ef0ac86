use vstd::prelude::*;
use vstd::string::*;

use crate::config::ClientConfig;
use crate::encoding::{form_encode, form_encoded, is_url_safe};
use crate::error::AuthError;
use crate::pkce::{
    challenge_for_verifier, is_valid_verifier, new_random_csrf_token, new_random_pkce_pair,
    pkce_s256_challenge,
};

verus! {

/// Where an authorization session stands.
#[derive(Clone, Copy, Debug, PartialEq, Eq, Structural)]
pub enum SessionState {
    /// The authorize URL is out; the provider's redirect is awaited.
    AwaitingCallback,
    /// A valid callback arrived and the token request is under way.
    Exchanging,
    /// The code was exchanged for tokens.
    Exchanged,
    /// A CSRF mismatch or a token-endpoint failure ended the session.
    Failed,
    /// The session was torn down before it completed.
    Aborted,
}

/// The tokens that the provider granted.
#[derive(Clone, Debug, PartialEq, Eq)]
pub struct ExchangeResult {
    pub access_token: String,
    pub refresh_token: Option<String>,
    pub token_type: String,
    pub expires_in_secs: Option<u64>,
}

/// What came back from the token endpoint.
#[derive(Clone, Debug, PartialEq, Eq)]
pub enum TokenOutcome {
    /// A well-formed token response.
    Granted(ExchangeResult),
    /// A transport failure or an error response, with what is known of it.
    EndpointError { status: Option<u16>, body: String },
    /// A response that could not be decoded.
    DecodeError(String),
}

/// The form fields of an authorization-code grant, to be posted to the
/// token endpoint.
#[derive(Clone, Debug, PartialEq, Eq)]
pub struct TokenRequest {
    pub token_url: Option<String>,
    pub code: String,
    pub redirect_uri: String,
    pub client_id: String,
    pub client_secret: Option<String>,
    pub code_verifier: String,
}

/// One authorization-code + PKCE session.
#[derive(Debug)]
pub struct OAuth2Authorizer {
    authorize_url: String,
    csrf_state: String,
    pkce_verifier: String,
    pkce_challenge: String,
    config: ClientConfig,
    state: SessionState,
}

/// Scopes joined by single spaces.
pub open spec fn join_scopes(s: Seq<Seq<char>>) -> Seq<char>
    decreases s.len(),
{
    if s.len() == 0 {
        Seq::empty()
    } else if s.len() == 1 {
        s[0]
    } else {
        join_scopes(s.drop_last()) + " "@ + s.last()
    }
}

pub open spec fn string_views(v: Seq<String>) -> Seq<Seq<char>> {
    v.map_values(|s: String| s@)
}

/// What separates an authorization endpoint from the parameters appended to
/// it: `?` where it has no query yet, `&` after a non-empty query.
pub open spec fn query_separator(base: Seq<char>) -> Seq<char> {
    if !base.contains('?') {
        "?"@
    } else if base.last() == '?' || base.last() == '&' {
        Seq::empty()
    } else {
        "&"@
    }
}

/// The `scope` parameter, absent where there are no scopes.
pub open spec fn scope_param(scopes: Seq<Seq<char>>) -> Seq<char> {
    if scopes.len() == 0 {
        Seq::empty()
    } else {
        "&scope="@ + form_encoded(join_scopes(scopes))
    }
}

/// The parameters that bind the redirect to this session: the CSRF token and
/// the S256 PKCE challenge.
pub open spec fn pkce_params(csrf: Seq<char>, challenge: Seq<char>) -> Seq<char> {
    "&state="@ + form_encoded(csrf) + "&code_challenge="@ + form_encoded(challenge)
        + "&code_challenge_method=S256"@
}

/// The authorize URL of a session of `config` with the given CSRF token and
/// PKCE challenge.
pub open spec fn authorize_url_for(config: ClientConfig, csrf: Seq<char>, challenge: Seq<char>) -> Seq<char> {
    let base = config.preset.auth_url@;
    base + query_separator(base) + "response_type=code&client_id="@ + form_encoded(
        config.client_id@,
    ) + "&redirect_uri="@ + form_encoded(config.redirect_url@) + scope_param(
        string_views(config.scopes@),
    ) + pkce_params(csrf, challenge)
}

/// The error with which an exchange presenting `given` as its state fails,
/// if it fails: a wrong state always fails, and a session takes one
/// exchange only.
pub open spec fn exchange_error(st: SessionState, csrf: Seq<char>, given: Seq<char>) -> Option<
    AuthError,
> {
    if given != csrf {
        Some(AuthError::CsrfMismatch)
    } else {
        match st {
            SessionState::AwaitingCallback => None,
            SessionState::Exchanging | SessionState::Exchanged => Some(
                AuthError::AlreadyExchanged,
            ),
            SessionState::Failed | SessionState::Aborted => Some(AuthError::SessionClosed),
        }
    }
}

/// The state after an exchange presenting `given` as its state.
pub open spec fn state_after_exchange(st: SessionState, csrf: Seq<char>, given: Seq<char>) -> SessionState {
    if st != SessionState::AwaitingCallback {
        st
    } else if given != csrf {
        SessionState::Failed
    } else {
        SessionState::Exchanging
    }
}

/// The state after the token endpoint's answer arrives.
pub open spec fn state_after_outcome(st: SessionState, outcome: TokenOutcome) -> SessionState {
    if st != SessionState::Exchanging {
        st
    } else {
        match outcome {
            TokenOutcome::Granted(_) => SessionState::Exchanged,
            _ => SessionState::Failed,
        }
    }
}

/// What finishing an exchange with `outcome` yields.
pub open spec fn outcome_result(st: SessionState, outcome: TokenOutcome) -> Result<
    ExchangeResult,
    AuthError,
> {
    if st != SessionState::Exchanging {
        Err(AuthError::SessionClosed)
    } else {
        match outcome {
            TokenOutcome::Granted(t) => Ok(t),
            TokenOutcome::EndpointError { status, body } => Err(
                AuthError::TokenEndpointError { status, body },
            ),
            TokenOutcome::DecodeError(m) => Err(AuthError::TokenDecodeError(m)),
        }
    }
}

fn clone_opt_string(o: &Option<String>) -> (r: Option<String>)
    ensures
        r == *o,
{
    match o {
        Some(s) => Some(s.clone()),
        None => None,
    }
}

fn has_question_mark(s: &str) -> (r: bool)
    ensures
        r == s@.contains('?'),
{
    let n = s.unicode_len();
    let mut i: usize = 0;
    while i < n
        invariant
            n == s@.len(),
            i <= n,
            forall|j: int| 0 <= j < i ==> s@[j] != '?',
        decreases n - i,
    {
        if s.get_char(i) == '?' {
            return true;
        }
        i = i + 1;
    }
    false
}

fn separator_for(base: &str) -> (r: String)
    ensures
        r@ == query_separator(base@),
{
    if !has_question_mark(base) {
        String::from_str("?")
    } else {
        let n = base.unicode_len();
        let last = base.get_char(n - 1);
        if last == '?' || last == '&' {
            String::new()
        } else {
            String::from_str("&")
        }
    }
}

fn joined_scopes(scopes: &Vec<String>) -> (r: String)
    ensures
        r@ == join_scopes(string_views(scopes@)),
{
    let mut out = String::new();
    let mut i: usize = 0;
    while i < scopes.len()
        invariant
            i <= scopes@.len(),
            out@ == join_scopes(string_views(scopes@).take(i as int)),
        decreases scopes@.len() - i,
    {
        proof {
            let sv = string_views(scopes@);
            assert(sv.take(i as int + 1).drop_last() =~= sv.take(i as int));
        }
        if i > 0 {
            out.append(" ");
        }
        out.append(scopes[i].as_str());
        proof {
            let sv = string_views(scopes@);
            if i == 0 {
                assert(out@ =~= sv.take(1)[0]);
            }
        }
        i = i + 1;
    }
    proof {
        assert(string_views(scopes@).take(scopes@.len() as int) =~= string_views(scopes@));
    }
    out
}

fn pkce_query_params(csrf: &str, challenge: &str) -> (r: String)
    ensures
        r@ == pkce_params(csrf@, challenge@),
        is_url_safe(csrf@) ==> form_encoded(csrf@) == csrf@,
        is_url_safe(challenge@) ==> form_encoded(challenge@) == challenge@,
{
    let mut s = String::from_str("&state=");
    s.append(form_encode(csrf).as_str());
    s.append("&code_challenge=");
    s.append(form_encode(challenge).as_str());
    s.append("&code_challenge_method=S256");
    s
}

fn compose_authorize_url(config: &ClientConfig, csrf: &str, challenge: &str) -> (r: String)
    ensures
        r@ == authorize_url_for(*config, csrf@, challenge@),
        is_url_safe(csrf@) ==> form_encoded(csrf@) == csrf@,
        is_url_safe(challenge@) ==> form_encoded(challenge@) == challenge@,
{
    let base = config.preset.auth_url.as_str();
    let mut s = String::from_str(base);
    s.append(separator_for(base).as_str());
    s.append("response_type=code&client_id=");
    s.append(form_encode(config.client_id.as_str()).as_str());
    s.append("&redirect_uri=");
    s.append(form_encode(config.redirect_url.as_str()).as_str());
    if config.scopes.len() > 0 {
        let joined = joined_scopes(&config.scopes);
        s.append("&scope=");
        s.append(form_encode(joined.as_str()).as_str());
    }
    s.append(pkce_query_params(csrf, challenge).as_str());
    s
}

impl OAuth2Authorizer {
    /// The session's authorize URL.
    pub closed spec fn url_view(&self) -> Seq<char> {
        self.authorize_url@
    }

    /// The session's CSRF token.
    pub closed spec fn csrf(&self) -> Seq<char> {
        self.csrf_state@
    }

    /// The session's PKCE verifier.
    pub closed spec fn code_verifier(&self) -> Seq<char> {
        self.pkce_verifier@
    }

    /// The session's PKCE challenge.
    pub closed spec fn challenge(&self) -> Seq<char> {
        self.pkce_challenge@
    }

    /// The client configuration the session was made with.
    pub closed spec fn client_config(&self) -> ClientConfig {
        self.config
    }

    /// Where the session stands.
    pub closed spec fn session_state(&self) -> SessionState {
        self.state
    }

    /// The challenge is the S256 challenge of the verifier, the authorize URL
    /// is composed from the configuration, the CSRF token and the challenge,
    /// and URL-safe tokens stand in it as they are.
    pub open spec fn wf(&self) -> bool {
        &&& is_valid_verifier(self.code_verifier())
        &&& self.challenge() == pkce_s256_challenge(self.code_verifier())
        &&& is_url_safe(self.challenge())
        &&& self.url_view() == authorize_url_for(self.client_config(), self.csrf(), self.challenge())
        &&& form_encoded(self.challenge()) == self.challenge()
        &&& is_url_safe(self.csrf()) ==> form_encoded(self.csrf()) == self.csrf()
    }

    /// `other` is this session, in whatever state.
    pub open spec fn same_session(&self, other: &Self) -> bool {
        &&& self.url_view() == other.url_view()
        &&& self.csrf() == other.csrf()
        &&& self.code_verifier() == other.code_verifier()
        &&& self.challenge() == other.challenge()
        &&& self.client_config() == other.client_config()
    }

    /// `req` is the grant request of this session for `code`.
    pub open spec fn is_grant_request(&self, req: TokenRequest, code: Seq<char>) -> bool {
        &&& req.code@ == code
        &&& req.code_verifier@ == self.code_verifier()
        &&& req.client_id == self.client_config().client_id
        &&& req.client_secret == self.client_config().client_secret
        &&& req.redirect_uri == self.client_config().redirect_url
        &&& req.token_url == self.client_config().preset.token_url
    }

    fn from_secrets(config: ClientConfig, verifier: String, challenge: String, csrf: String) -> (r:
        Self)
        requires
            is_valid_verifier(verifier@),
            challenge@ == pkce_s256_challenge(verifier@),
            is_url_safe(challenge@),
        ensures
            r.wf(),
            r.session_state() == SessionState::AwaitingCallback,
            r.client_config() == config,
            r.code_verifier() == verifier@,
            r.csrf() == csrf@,
    {
        let authorize_url = compose_authorize_url(&config, csrf.as_str(), challenge.as_str());
        OAuth2Authorizer {
            authorize_url,
            csrf_state: csrf,
            pkce_verifier: verifier,
            pkce_challenge: challenge,
            config,
            state: SessionState::AwaitingCallback,
        }
    }

    /// Starts a session with a fresh random PKCE verifier and CSRF token.
    pub fn new(config: ClientConfig) -> (r: Self)
        ensures
            r.wf(),
            r.session_state() == SessionState::AwaitingCallback,
            r.client_config() == config,
            r.code_verifier().len() == 43,
            r.csrf().len() == 22,
            is_url_safe(r.csrf()),
    {
        let (challenge, verifier) = new_random_pkce_pair();
        let csrf = new_random_csrf_token();
        Self::from_secrets(config, verifier, challenge, csrf)
    }

    /// Starts a session with the given PKCE verifier and CSRF token.
    pub fn with_secrets(config: ClientConfig, verifier: String, csrf: String) -> (r: Self)
        requires
            is_valid_verifier(verifier@),
        ensures
            r.wf(),
            r.session_state() == SessionState::AwaitingCallback,
            r.client_config() == config,
            r.code_verifier() == verifier@,
            r.csrf() == csrf@,
    {
        let challenge = challenge_for_verifier(verifier.as_str());
        Self::from_secrets(config, verifier, challenge, csrf)
    }

    /// The URL to open in a browser to authorize this session.
    pub fn authorize_url(&self) -> (r: &String)
        ensures
            r@ == self.url_view(),
    {
        &self.authorize_url
    }

    /// The session's CSRF token.
    pub fn csrf_token(&self) -> (r: &String)
        ensures
            r@ == self.csrf(),
    {
        &self.csrf_state
    }

    /// The session's PKCE verifier.
    pub fn pkce_verifier(&self) -> (r: &String)
        ensures
            r@ == self.code_verifier(),
    {
        &self.pkce_verifier
    }

    /// Where the session stands.
    pub fn state(&self) -> (r: SessionState)
        ensures
            r == self.session_state(),
    {
        self.state
    }

    /// Checks a callback's `state` against the CSRF token and, on a match in a
    /// session that awaits its callback, hands out the grant request for
    /// `code` and marks the secrets spent. A wrong `state` always fails with
    /// `CsrfMismatch` and yields no request; it fails an awaiting session.
    pub fn exchange_code(&mut self, code: &str, state: &str) -> (r: Result<TokenRequest, AuthError>)
        ensures
            final(self).same_session(old(self)),
            final(self).session_state() == state_after_exchange(
                old(self).session_state(),
                old(self).csrf(),
                state@,
            ),
            state@ != old(self).csrf() ==> r == Err::<TokenRequest, AuthError>(
                AuthError::CsrfMismatch,
            ),
            r is Err <==> exchange_error(old(self).session_state(), old(self).csrf(), state@) is Some,
            r matches Err(e) ==> exchange_error(old(self).session_state(), old(self).csrf(), state@)
                == Some(e),
            r matches Ok(req) ==> old(self).is_grant_request(req, code@),
    {
        let given = String::from_str(state);
        if !(given == self.csrf_state) {
            if self.state == SessionState::AwaitingCallback {
                self.state = SessionState::Failed;
            }
            return Err(AuthError::CsrfMismatch);
        }
        match self.state {
            SessionState::AwaitingCallback => {
                self.state = SessionState::Exchanging;
                Ok(
                    TokenRequest {
                        token_url: clone_opt_string(&self.config.preset.token_url),
                        code: String::from_str(code),
                        redirect_uri: self.config.redirect_url.clone(),
                        client_id: self.config.client_id.clone(),
                        client_secret: clone_opt_string(&self.config.client_secret),
                        code_verifier: self.pkce_verifier.clone(),
                    },
                )
            },
            SessionState::Exchanging | SessionState::Exchanged => Err(AuthError::AlreadyExchanged),
            SessionState::Failed | SessionState::Aborted => Err(AuthError::SessionClosed),
        }
    }

    /// Records the token endpoint's answer to the request that
    /// `exchange_code` handed out: tokens end the session as exchanged, an
    /// error ends it as failed. Outside an exchange in flight it changes
    /// nothing and fails with `SessionClosed`.
    pub fn complete_exchange(&mut self, outcome: TokenOutcome) -> (r: Result<ExchangeResult, AuthError>)
        ensures
            final(self).same_session(old(self)),
            final(self).session_state() == state_after_outcome(old(self).session_state(), outcome),
            r == outcome_result(old(self).session_state(), outcome),
    {
        if self.state != SessionState::Exchanging {
            return Err(AuthError::SessionClosed);
        }
        match outcome {
            TokenOutcome::Granted(t) => {
                self.state = SessionState::Exchanged;
                Ok(t)
            },
            TokenOutcome::EndpointError { status, body } => {
                self.state = SessionState::Failed;
                Err(AuthError::TokenEndpointError { status, body })
            },
            TokenOutcome::DecodeError(m) => {
                self.state = SessionState::Failed;
                Err(AuthError::TokenDecodeError(m))
            },
        }
    }

    /// Tears the session down: one that awaits its callback or an exchange
    /// ends as aborted; a finished one stays as it is.
    pub fn abort(&mut self)
        ensures
            final(self).same_session(old(self)),
            final(self).session_state() == (if old(self).session_state()
                == SessionState::AwaitingCallback || old(self).session_state()
                == SessionState::Exchanging {
                SessionState::Aborted
            } else {
                old(self).session_state()
            }),
    {
        if self.state == SessionState::AwaitingCallback || self.state == SessionState::Exchanging {
            self.state = SessionState::Aborted;
        }
    }

    /// The one-shot form of `exchange_code`: the session is consumed, so its
    /// secrets serve at most this one exchange.
    pub fn try_into_token_request(self, code: &str, state: &str) -> (r: Result<
        TokenRequest,
        AuthError,
    >)
        ensures
            state@ != self.csrf() ==> r == Err::<TokenRequest, AuthError>(AuthError::CsrfMismatch),
            r matches Err(e) ==> exchange_error(self.session_state(), self.csrf(), state@) == Some(e),
            r is Err <==> exchange_error(self.session_state(), self.csrf(), state@) is Some,
            r matches Ok(req) ==> self.is_grant_request(req, code@),
    {
        let mut this = self;
        this.exchange_code(code, state)
    }
}

/// The authorize URL of a well-formed session ends with its CSRF token as the
/// `state` parameter, the S256 challenge of its verifier as the
/// `code_challenge` parameter, and `code_challenge_method=S256`, wherever
/// the CSRF token is URL-safe (as a freshly generated one is).
pub proof fn lemma_authorize_url_binds_session(a: &OAuth2Authorizer)
    requires
        a.wf(),
        is_url_safe(a.csrf()),
    ensures
        exists|head: Seq<char>|
            a.url_view() == head + "&state="@ + a.csrf() + "&code_challenge="@
                + pkce_s256_challenge(a.code_verifier()) + "&code_challenge_method=S256"@,
{
    let cfg = a.client_config();
    let base = cfg.preset.auth_url@;
    let head = base + query_separator(base) + "response_type=code&client_id="@ + form_encoded(
        cfg.client_id@,
    ) + "&redirect_uri="@ + form_encoded(cfg.redirect_url@) + scope_param(
        string_views(cfg.scopes@),
    );
    assert(a.url_view() =~= head + "&state="@ + a.csrf() + "&code_challenge="@
        + pkce_s256_challenge(a.code_verifier()) + "&code_challenge_method=S256"@);
}

/// A session serves one exchange: once a callback with the right `state`
/// has been accepted, the same callback is refused as already exchanged,
/// both while the token request is in flight and after tokens were granted.
pub proof fn lemma_exchange_single_use(
    st: SessionState,
    csrf: Seq<char>,
    given: Seq<char>,
    granted: ExchangeResult,
)
    requires
        exchange_error(st, csrf, given) is None,
    ensures
        exchange_error(state_after_exchange(st, csrf, given), csrf, given) == Some(
            AuthError::AlreadyExchanged,
        ),
        outcome_result(state_after_exchange(st, csrf, given), TokenOutcome::Granted(granted))
            == Ok::<ExchangeResult, AuthError>(granted),
        exchange_error(
            state_after_outcome(
                state_after_exchange(st, csrf, given),
                TokenOutcome::Granted(granted),
            ),
            csrf,
            given,
        ) == Some(AuthError::AlreadyExchanged),
{
}

/// A callback whose `state` is not the session's CSRF token fails with
/// `CsrfMismatch` in every state of the session, and leaves a session in
/// flight no way to a token request.
pub proof fn lemma_csrf_mismatch_always_fails(st: SessionState, csrf: Seq<char>, given: Seq<char>)
    requires
        given != csrf,
    ensures
        exchange_error(st, csrf, given) == Some(AuthError::CsrfMismatch),
        state_after_exchange(st, csrf, given) != SessionState::Exchanging
            || st == SessionState::Exchanging,
{
}

} // verus!
