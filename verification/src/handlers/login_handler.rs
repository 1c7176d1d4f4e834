use crate::http::{is_plain_redirect, HttpOutcome};
use crate::percent::{percent_decodable, percent_decode, url_decode};
use crate::query::{extract_query_param, query_param_or_root};
use crate::shared::oidc_state::{OidcState, OidcStateView};
use crate::shared::oidc_state_map::OidcStateMap;
use openidconnect::{Nonce, PkceCodeVerifier};
use vstd::prelude::*;

verus! {

/// The raw (still percent-encoded) redirect target of a login request: its
/// `rd` parameter, or `/`.
pub open spec fn raw_redirect_target(query: Seq<char>) -> Seq<char> {
    query_param_or_root(query, "rd"@)
}

/// Where the user is sent back after logging in: the `rd` parameter of the
/// login request, percent-decoded, or `/` when there is none.
pub fn login_redirect_target(query: &str) -> (target: String)
    requires
        percent_decodable(raw_redirect_target(query@)),
    ensures
        target@ == percent_decode(raw_redirect_target(query@)),
{
    let raw = extract_query_param(query, "rd");
    url_decode(raw)
}

/// The pending login that a login request leaves behind.
pub open spec fn pending_login(redirect_uri: Seq<char>, pkce_verifier: PkceCodeVerifier, nonce: Nonce) -> OidcStateView {
    OidcStateView { redirect_uri, pkce_verifier: Some(pkce_verifier), nonce: Some(nonce) }
}

/// Records a login that the identity provider will confirm under
/// `csrf_state`, and answers with a redirect to the provider's
/// authorization page `auth_url`.
pub fn register_login(
    map: &mut OidcStateMap,
    csrf_state: String,
    redirect_uri: String,
    pkce_verifier: PkceCodeVerifier,
    nonce: Nonce,
    auth_url: String,
) -> (outcome: HttpOutcome)
    ensures
        final(map)@ == old(map)@.insert(csrf_state@, pending_login(redirect_uri@, pkce_verifier, nonce)),
        old(map).holds_fresh_states() ==> final(map).holds_fresh_states(),
        is_plain_redirect(outcome, auth_url@),
        outcome.location == Some(auth_url),
{
    let state = OidcState::new(redirect_uri, pkce_verifier, nonce);
    let _ = map.insert(csrf_state, state);
    HttpOutcome::redirect(auth_url)
}

} // verus!
