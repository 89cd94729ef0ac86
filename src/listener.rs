use vstd::prelude::*;
use vstd::string::*;

use crate::auth::{
    exchange_error, outcome_result, state_after_exchange, ExchangeResult, OAuth2Authorizer,
    TokenOutcome, TokenRequest,
};
use crate::encoding::{decode_query, form_pairs, pairs_view};
use crate::error::{error_message, error_status, AuthError};

verus! {

/// The `code` and `state` of a provider's redirect.
#[derive(Clone, Debug, PartialEq, Eq)]
pub struct ExchangeQueryParams {
    pub code: String,
    pub state: String,
}

/// The tokens of a completed exchange, tagged with the session's name, as
/// they are published to the host.
#[derive(Clone, Debug, PartialEq, Eq)]
pub struct ExchangeTokenData {
    pub name: String,
    pub access_token: String,
    pub refresh_token: Option<String>,
}

/// What the listener does with a redirect request.
#[derive(Clone, Debug, PartialEq, Eq)]
pub enum CallbackAction {
    /// Answer at once with this status and plain-text body.
    Respond { status: u16, body: String },
    /// Post this grant request to the token endpoint, then hand its answer
    /// to `handle_token_outcome`.
    RequestToken(TokenRequest),
}

/// The answer to a redirect request whose token request has completed, and
/// the event to publish, if any.
#[derive(Clone, Debug, PartialEq, Eq)]
pub struct CallbackReply {
    pub status: u16,
    pub body: String,
    pub event: Option<ExchangeTokenData>,
}

/// The value of the first pair named `key`.
pub open spec fn lookup(pairs: Seq<(Seq<char>, Seq<char>)>, key: Seq<char>) -> Option<Seq<char>>
    decreases pairs.len(),
{
    if pairs.len() == 0 {
        None
    } else if pairs[0].0 == key {
        Some(pairs[0].1)
    } else {
        lookup(pairs.drop_first(), key)
    }
}

/// The `code` and `state` of a redirect's decoded query, or the parameter
/// that it lacks (`code` is looked for first).
pub open spec fn callback_params(pairs: Seq<(Seq<char>, Seq<char>)>) -> Result<
    (Seq<char>, Seq<char>),
    AuthError,
> {
    match lookup(pairs, "code"@) {
        None => Err(AuthError::MissingCode),
        Some(code) => match lookup(pairs, "state"@) {
            None => Err(AuthError::MissingState),
            Some(state) => Ok((code, state)),
        },
    }
}

/// `r` answers with the status and text of `e`.
pub open spec fn responds_with_error(r: CallbackAction, e: AuthError) -> bool {
    r matches CallbackAction::Respond { status, body } && status == error_status(e) && body@
        == error_message(e)
}

/// `r` hands out the grant request of session `a` for `code`.
pub open spec fn requests_grant(r: CallbackAction, a: &OAuth2Authorizer, code: Seq<char>) -> bool {
    r matches CallbackAction::RequestToken(req) && a.is_grant_request(req, code)
}

fn find_value(pairs: &Vec<(String, String)>, key: &str) -> (r: Option<String>)
    ensures
        r matches Some(v) ==> lookup(pairs_view(pairs@), key@) == Some(v@),
        r is None ==> lookup(pairs_view(pairs@), key@) is None,
{
    let ghost pv = pairs_view(pairs@);
    let wanted = String::from_str(key);
    let mut i: usize = 0;
    proof {
        assert(pv.skip(0) =~= pv);
    }
    while i < pairs.len()
        invariant
            pv == pairs_view(pairs@),
            wanted@ == key@,
            i <= pairs@.len(),
            lookup(pv, key@) == lookup(pv.skip(i as int), key@),
        decreases pairs@.len() - i,
    {
        proof {
            assert(pv.skip(i as int).drop_first() =~= pv.skip(i as int + 1));
            assert(pv.skip(i as int)[0] == pv[i as int]);
        }
        if pairs[i].0 == wanted {
            return Some(pairs[i].1.clone());
        }
        i = i + 1;
    }
    proof {
        assert(pv.skip(i as int) =~= Seq::<(Seq<char>, Seq<char>)>::empty());
    }
    None
}

/// Picks `code` and `state` out of a redirect's decoded query pairs; the
/// first pair of each name counts.
pub fn params_from_pairs(pairs: &Vec<(String, String)>) -> (r: Result<ExchangeQueryParams, AuthError>)
    ensures
        r matches Ok(p) ==> callback_params(pairs_view(pairs@)) == Ok::<
            (Seq<char>, Seq<char>),
            AuthError,
        >((p.code@, p.state@)),
        r matches Err(e) ==> callback_params(pairs_view(pairs@)) == Err::<
            (Seq<char>, Seq<char>),
            AuthError,
        >(e),
{
    let code = match find_value(pairs, "code") {
        Some(c) => c,
        None => {
            return Err(AuthError::MissingCode);
        },
    };
    let state = match find_value(pairs, "state") {
        Some(s) => s,
        None => {
            return Err(AuthError::MissingState);
        },
    };
    Ok(ExchangeQueryParams { code, state })
}

/// Parses the query string of a redirect into its `code` and `state`.
pub fn parse_callback_query(query: &str) -> (r: Result<ExchangeQueryParams, AuthError>)
    ensures
        r matches Ok(p) ==> callback_params(form_pairs(query@)) == Ok::<
            (Seq<char>, Seq<char>),
            AuthError,
        >((p.code@, p.state@)),
        r matches Err(e) ==> callback_params(form_pairs(query@)) == Err::<
            (Seq<char>, Seq<char>),
            AuthError,
        >(e),
{
    let pairs = decode_query(query);
    params_from_pairs(&pairs)
}

/// Decides on a redirect request from its decoded query pairs. A request
/// without `code` or `state` is answered 400 and leaves the session as it
/// was; otherwise the session checks the `state` and either hands out its
/// grant request or the failure is answered with its status and text.
pub fn handle_callback_pairs(authorizer: &mut OAuth2Authorizer, pairs: &Vec<(String, String)>) -> (r:
    CallbackAction)
    ensures
        callback_params(pairs_view(pairs@)) matches Err(e) ==> *final(authorizer)
            == *old(authorizer) && responds_with_error(r, e) && error_status(e) == 400,
        callback_params(pairs_view(pairs@)) matches Ok((code, state)) ==> {
            &&& final(authorizer).same_session(old(authorizer))
            &&& final(authorizer).session_state() == state_after_exchange(
                old(authorizer).session_state(),
                old(authorizer).csrf(),
                state,
            )
            &&& (exchange_error(old(authorizer).session_state(), old(authorizer).csrf(), state) matches Some(e)
                ==> responds_with_error(r, e))
            &&& (exchange_error(old(authorizer).session_state(), old(authorizer).csrf(), state) is None
                ==> requests_grant(r, old(authorizer), code))
        },
{
    match params_from_pairs(pairs) {
        Err(e) => CallbackAction::Respond { status: e.status(), body: e.message() },
        Ok(p) => match authorizer.exchange_code(p.code.as_str(), p.state.as_str()) {
            Ok(req) => CallbackAction::RequestToken(req),
            Err(e) => CallbackAction::Respond { status: e.status(), body: e.message() },
        },
    }
}

/// Decides on a redirect request from its raw query string, as
/// `handle_callback_pairs` does on the decoded pairs.
pub fn handle_callback(authorizer: &mut OAuth2Authorizer, query: &str) -> (r: CallbackAction)
    ensures
        callback_params(form_pairs(query@)) matches Err(e) ==> *final(authorizer)
            == *old(authorizer) && responds_with_error(r, e) && error_status(e) == 400,
        callback_params(form_pairs(query@)) matches Ok((code, state)) ==> {
            &&& final(authorizer).same_session(old(authorizer))
            &&& final(authorizer).session_state() == state_after_exchange(
                old(authorizer).session_state(),
                old(authorizer).csrf(),
                state,
            )
            &&& (exchange_error(old(authorizer).session_state(), old(authorizer).csrf(), state) matches Some(e)
                ==> responds_with_error(r, e))
            &&& (exchange_error(old(authorizer).session_state(), old(authorizer).csrf(), state) is None
                ==> requests_grant(r, old(authorizer), code))
        },
{
    let pairs = decode_query(query);
    handle_callback_pairs(authorizer, &pairs)
}

/// Finishes a redirect request with the token endpoint's answer: granted
/// tokens are answered 200 `OK` and published under `name`; a failure is
/// answered with its status and text and publishes nothing.
pub fn handle_token_outcome(authorizer: &mut OAuth2Authorizer, name: &str, outcome: TokenOutcome) -> (r:
    CallbackReply)
    ensures
        final(authorizer).same_session(old(authorizer)),
        outcome_result(old(authorizer).session_state(), outcome) matches Ok(t) ==> {
            &&& r.status == 200
            &&& r.body@ == "OK"@
            &&& r.event matches Some(ev) && ev.name@ == name@ && ev.access_token == t.access_token
                && ev.refresh_token == t.refresh_token
        },
        outcome_result(old(authorizer).session_state(), outcome) matches Err(e) ==> {
            &&& r.status == error_status(e)
            &&& r.body@ == error_message(e)
            &&& r.event is None
        },
{
    match authorizer.complete_exchange(outcome) {
        Ok(t) => {
            let ExchangeResult { access_token, refresh_token, .. } = t;
            CallbackReply {
                status: 200,
                body: String::from_str("OK"),
                event: Some(
                    ExchangeTokenData { name: String::from_str(name), access_token, refresh_token },
                ),
            }
        },
        Err(e) => CallbackReply { status: e.status(), body: e.message(), event: None },
    }
}

/// The address to bind the listener to: the first one that the redirect
/// URL resolved to.
pub fn first_address<A>(addrs: Vec<A>) -> (r: Result<A, AuthError>)
    ensures
        addrs@.len() == 0 ==> r == Err::<A, AuthError>(AuthError::AddressResolutionError),
        addrs@.len() > 0 ==> r == Ok::<A, AuthError>(addrs@[0]),
{
    let mut addrs = addrs;
    if addrs.len() == 0 {
        Err(AuthError::AddressResolutionError)
    } else {
        Ok(addrs.swap_remove(0))
    }
}

} // verus!
