use vstd::prelude::*;

use crate::encoding::is_url_safe;

verus! {

/// The S256 code challenge of a PKCE verifier: `BASE64URL(SHA256(verifier))`
/// without padding.
pub uninterp spec fn pkce_s256_challenge(verifier: Seq<char>) -> Seq<char>;

/// A verifier as sessions take it: 43 to 128 URL-safe characters (the
/// S256 challenge is only computed for 43 to 128 bytes).
pub open spec fn is_valid_verifier(v: Seq<char>) -> bool {
    43 <= v.len() <= 128 && is_url_safe(v)
}

/// Relies on `oauth2::PkceCodeChallenge::new_random_sha256`: 32 random bytes,
/// base64url-encoded without padding (43 characters), and the S256 challenge
/// of that verifier, itself base64url without padding.
#[verifier::external_body]
pub(crate) fn new_random_pkce_pair() -> (r: (String, String))
    ensures
        r.1@.len() == 43,
        is_url_safe(r.1@),
        r.0@ == pkce_s256_challenge(r.1@),
        is_url_safe(r.0@),
{
    let (challenge, verifier) = oauth2::PkceCodeChallenge::new_random_sha256();
    (challenge.as_str().to_string(), verifier.secret().to_string())
}

/// Relies on `oauth2::PkceCodeChallenge::from_code_verifier_sha256`: the S256
/// challenge of the verifier, base64url without padding. It panics on a
/// verifier outside 43..=128 bytes, which `requires` leaves out.
#[verifier::external_body]
pub(crate) fn challenge_for_verifier(verifier: &str) -> (r: String)
    requires
        is_valid_verifier(verifier@),
    ensures
        r@ == pkce_s256_challenge(verifier@),
        is_url_safe(r@),
{
    let v = oauth2::PkceCodeVerifier::new(verifier.to_string());
    oauth2::PkceCodeChallenge::from_code_verifier_sha256(&v).as_str().to_string()
}

/// Relies on `oauth2::CsrfToken::new_random`: 16 random bytes,
/// base64url-encoded without padding (22 characters).
#[verifier::external_body]
pub(crate) fn new_random_csrf_token() -> (r: String)
    ensures
        r@.len() == 22,
        is_url_safe(r@),
{
    oauth2::CsrfToken::new_random().secret().to_string()
}

} // verus!
