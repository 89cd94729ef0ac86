use vstd::prelude::*;

use crate::auth::{exchange_error, OAuth2Authorizer, SessionState, TokenRequest};
use crate::config::ClientConfig;
use crate::encoding::{decode_query, form_pairs, query_of_url, url_query};
use crate::error::AuthError;
use crate::listener::callback_params;
use crate::registry::{after_remove, has_name, index_of, AuthorizerThreadsState};

verus! {

/// The decoded query pairs of a redirect URL; none where it has no query.
pub open spec fn redirect_pairs(url: Seq<char>) -> Seq<(Seq<char>, Seq<char>)> {
    match url_query(url) {
        Some(q) => form_pairs(q),
        None => Seq::empty(),
    }
}

/// What exchanging the redirect URL `url` yields from the pending session
/// `a`, on the grant request itself: the `code`/`state` it carries are
/// checked as a callback's are.
pub open spec fn redirect_exchange_result(
    a: OAuth2Authorizer,
    url: Seq<char>,
    r: Result<TokenRequest, AuthError>,
) -> bool {
    match callback_params(redirect_pairs(url)) {
        Err(e) => r == Err::<TokenRequest, AuthError>(e),
        Ok((code, state)) => match exchange_error(a.session_state(), a.csrf(), state) {
            Some(e) => r == Err::<TokenRequest, AuthError>(e),
            None => r matches Ok(req) && a.is_grant_request(req, code),
        },
    }
}

/// Starts a pending session `name` for the caller to drive, and returns its
/// authorize URL. A name that is already pending is refused with
/// `DuplicateSession` and nothing changes.
pub fn get_authorize_url(
    pending: &mut AuthorizerThreadsState<OAuth2Authorizer>,
    name: String,
    config: ClientConfig,
) -> (r: Result<String, AuthError>)
    requires
        old(pending).wf(),
    ensures
        final(pending).wf(),
        has_name(old(pending).sessions(), name@) ==> r == Err::<String, AuthError>(
            AuthError::DuplicateSession,
        ) && final(pending).sessions() == old(pending).sessions(),
        !has_name(old(pending).sessions(), name@) ==> {
            let s = final(pending).sessions();
            let a = s.last().1;
            &&& s.len() == old(pending).sessions().len() + 1
            &&& s.drop_last() == old(pending).sessions()
            &&& s.last().0 == name@
            &&& a.wf()
            &&& a.session_state() == SessionState::AwaitingCallback
            &&& a.client_config() == config
            &&& r matches Ok(url) && url@ == a.url_view()
        },
{
    if pending.contains(name.as_str()) {
        return Err(AuthError::DuplicateSession);
    }
    let a = OAuth2Authorizer::new(config);
    let url = a.authorize_url().clone();
    let ghost old_s = pending.sessions();
    let res = pending.insert(name, a);
    proof {
        assert(pending.sessions().drop_last() =~= old_s);
    }
    match res {
        Ok(()) => Ok(url),
        Err(_) => Err(AuthError::DuplicateSession),
    }
}

/// Takes the pending session `name` and exchanges the redirect URL that the
/// provider sent the browser to: its `code` and `state` are checked and the
/// grant request handed out. The session is consumed either way; a name
/// that is not pending fails with `NotFound`.
pub fn exchange_redirect_url(
    pending: &mut AuthorizerThreadsState<OAuth2Authorizer>,
    name: &str,
    redirect_url: &str,
) -> (r: Result<TokenRequest, AuthError>)
    requires
        old(pending).wf(),
    ensures
        final(pending).wf(),
        final(pending).sessions() == after_remove(old(pending).sessions(), name@),
        !has_name(old(pending).sessions(), name@) ==> r == Err::<TokenRequest, AuthError>(
            AuthError::NotFound,
        ),
        has_name(old(pending).sessions(), name@) ==> redirect_exchange_result(
            old(pending).sessions()[index_of(old(pending).sessions(), name@)].1,
            redirect_url@,
            r,
        ),
{
    let a = match pending.take(name) {
        Ok(a) => a,
        Err(e) => {
            return Err(e);
        },
    };
    let pairs = match query_of_url(redirect_url) {
        Some(q) => decode_query(q.as_str()),
        None => Vec::new(),
    };
    proof {
        if url_query(redirect_url@) is None {
            assert(crate::encoding::pairs_view(pairs@) =~= Seq::<(Seq<char>, Seq<char>)>::empty());
        }
    }
    match crate::listener::params_from_pairs(&pairs) {
        Err(e) => Err(e),
        Ok(p) => a.try_into_token_request(p.code.as_str(), p.state.as_str()),
    }
}

} // verus!
