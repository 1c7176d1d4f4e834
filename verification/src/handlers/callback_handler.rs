use crate::http::{is_bare_unauthorized, AuthCookie, HttpOutcome, HttpStatus};
use crate::handlers::login_handler::pending_login;
use crate::query::{
    extract_query_param, law_param_read_back, law_param_skips_other_piece, lemma_split_concat,
    lemma_split_without_separator, param_pair, plain_text, query_param_or_root, segment_value, split_on,
};
use crate::shared::oidc_state::OidcStateView;
use crate::shared::oidc_state_map::OidcStateMap;
use openidconnect::{Nonce, PkceCodeVerifier};
use vstd::prelude::*;

verus! {

/// The claims beyond the standard ones that the identity provider puts in
/// an ID token: the user's object id.
#[derive(Clone, Debug, PartialEq)]
pub struct MyAdditionalClaims {
    pub oid: String,
}

/// What the callback endpoint does with a request, before it talks to the
/// identity provider.
pub enum CallbackStart {
    /// The request names no pending login: answer at once.
    Rejected(HttpOutcome),
    /// The pending login was found and taken out of the map: exchange `code`
    /// with `pkce_verifier`, check the ID token against `nonce`, and send the
    /// user to `redirect_uri`.
    Proceed {
        code: String,
        redirect_uri: String,
        pkce_verifier: PkceCodeVerifier,
        nonce: Nonce,
    },
}

/// The CSRF state that a callback request names.
pub open spec fn callback_state(query: Seq<char>) -> Seq<char> {
    query_param_or_root(query, "state"@)
}

/// The authorization code that a callback request carries.
pub open spec fn callback_code(query: Seq<char>) -> Seq<char> {
    query_param_or_root(query, "code"@)
}

/// Takes the pending login that a callback request names out of `map`.
/// A request whose state names no pending login is refused with a bare 401
/// and leaves the map as it was; otherwise the login is removed, so that it
/// cannot be completed twice, and its secrets are handed out.
pub fn begin_callback(map: &mut OidcStateMap, query: &str) -> (start: CallbackStart)
    requires
        old(map).holds_fresh_states(),
    ensures
        final(map).holds_fresh_states(),
        final(map)@ == old(map)@.remove(callback_state(query@)),
        !old(map)@.dom().contains(callback_state(query@)) ==> (start matches CallbackStart::Rejected(o)
            && is_bare_unauthorized(o)),
        old(map)@.dom().contains(callback_state(query@)) ==> (start matches CallbackStart::Proceed {
            code,
            redirect_uri,
            pkce_verifier,
            nonce,
        } && code@ == callback_code(query@) && redirect_uri@ == old(map)@[callback_state(
            query@,
        )].redirect_uri && old(map)@[callback_state(query@)].pkce_verifier == Some(pkce_verifier)
            && old(map)@[callback_state(query@)].nonce == Some(nonce)),
{
    let state = extract_query_param(query, "state");
    let code = extract_query_param(query, "code");
    if !map.contains_key(&state) {
        proof {
            assert(map@ =~= map@.remove(state@));
        }
        return CallbackStart::Rejected(HttpOutcome::unauthorized());
    }
    let ghost before = map@;
    let mut pending = map.remove(&state).unwrap();
    assert(forall|k: Seq<char>| #[trigger] map@.dom().contains(k) ==> before.dom().contains(k) && map@[k] == before[k]);
    let redirect_uri = pending.redirect_uri().clone();
    let pkce_verifier = pending.take_pkce_verifier().unwrap();
    let nonce = pending.take_nonce().unwrap();
    CallbackStart::Proceed { code, redirect_uri, pkce_verifier, nonce }
}

/// The name of the cookie that carries the session token.
pub open spec fn auth_cookie_name() -> Seq<char> {
    "auth_token"@
}

/// `outcome` sends the user to `redirect_uri` with the session token `token`
/// in a cookie valid for the whole site.
pub open spec fn is_login_success(outcome: HttpOutcome, token: Seq<char>, redirect_uri: Seq<char>) -> bool {
    &&& outcome.status == HttpStatus::Found
    &&& outcome.location matches Some(l) && l@ == redirect_uri
    &&& outcome.body is None
    &&& outcome.cookie matches Some(c) && c.name@ == auth_cookie_name() && c.value@ == token
        && c.path@ == "/"@ && !c.secure && !c.http_only
}

/// Answers a completed callback: without a session token (the user is not
/// known) the request is refused with a bare 401; with one, the user is sent
/// to `redirect_uri` with the token in the `auth_token` cookie.
pub fn callback_outcome(token: Option<String>, redirect_uri: String) -> (outcome: HttpOutcome)
    ensures
        match token {
            None => is_bare_unauthorized(outcome),
            Some(t) => is_login_success(outcome, t@, redirect_uri@) && (outcome.cookie matches Some(c)
                && c.value == t) && outcome.location == Some(redirect_uri),
        },
{
    match token {
        None => HttpOutcome::unauthorized(),
        Some(t) => {
            let cookie = AuthCookie {
                name: "auth_token".to_owned(),
                value: t,
                path: "/".to_owned(),
                secure: false,
                http_only: false,
            };
            HttpOutcome {
                status: HttpStatus::Found,
                location: Some(redirect_uri),
                cookie: Some(cookie),
                body: None,
            }
        },
    }
}


/// The callback that the identity provider sends for a login registered under
/// `csrf_state` (its query `state=<csrf_state>&code=<code>`) finds that login
/// and hands back exactly the redirect target, PKCE verifier and nonce that
/// the login stored, and once it has been taken out a replay of the same
/// callback finds nothing and is refused.
pub proof fn law_login_then_callback(
    pending: Map<Seq<char>, OidcStateView>,
    csrf_state: Seq<char>,
    redirect_uri: Seq<char>,
    pkce_verifier: PkceCodeVerifier,
    nonce: Nonce,
    code: Seq<char>,
)
    requires
        plain_text(csrf_state),
        plain_text(code),
    ensures
        ({
            let after_login = pending.insert(csrf_state, pending_login(redirect_uri, pkce_verifier, nonce));
            let query = param_pair("state"@, csrf_state) + seq!['&'] + param_pair("code"@, code);
            &&& callback_state(query) == csrf_state
            &&& callback_code(query) == code
            &&& after_login.dom().contains(callback_state(query))
            &&& after_login[callback_state(query)].redirect_uri == redirect_uri
            &&& after_login[callback_state(query)].pkce_verifier == Some(pkce_verifier)
            &&& after_login[callback_state(query)].nonce == Some(nonce)
            &&& !after_login.remove(callback_state(query)).dom().contains(callback_state(query))
        }),
{
    reveal_strlit("state");
    reveal_strlit("code");
    let state_name = "state"@;
    let code_name = "code"@;
    assert(plain_text(state_name));
    assert(plain_text(code_name));
    let first = param_pair(state_name, csrf_state);
    let second = param_pair(code_name, code);
    law_param_read_back(state_name, csrf_state, second);
    law_param_read_back(code_name, code, Seq::<char>::empty());
    assert(!first.contains('&')) by {
        if first.contains('&') {
            let i = choose|i: int| 0 <= i < first.len() && first[i] == '&';
            if i < state_name.len() {
                assert(state_name[i] == '&');
            } else if i > state_name.len() {
                assert(csrf_state[i - state_name.len() - 1] == '&');
            }
        }
    }
    lemma_split_without_separator(state_name, '=');
    lemma_split_without_separator(csrf_state, '=');
    lemma_split_concat(state_name, csrf_state, '=');
    assert(first =~= state_name + seq!['='] + csrf_state);
    assert(split_on(first, '=') =~= seq![state_name, csrf_state]);
    assert(state_name[0] != code_name[0]);
    assert(segment_value(first, code_name) is None);
    law_param_skips_other_piece(first, second, code_name);
}


/// The session cookie of a successful callback carries the signed token
/// verbatim and the redirect goes to the stored target verbatim: different
/// tokens give different cookie values, so the token that `/validate` later
/// reads from the cookie is the one that was issued.
pub proof fn law_login_success_carries_token(
    o1: HttpOutcome,
    t1: Seq<char>,
    r1: Seq<char>,
    o2: HttpOutcome,
    t2: Seq<char>,
    r2: Seq<char>,
)
    requires
        is_login_success(o1, t1, r1),
        is_login_success(o2, t2, r2),
    ensures
        o1.cookie is Some && o1.cookie->0.value@ == t1,
        o1.location is Some && o1.location->0@ == r1,
        t1 != t2 ==> o1.cookie->0.value@ != o2.cookie->0.value@,
        r1 != r2 ==> o1.location->0@ != o2.location->0@,
{
}

/// The state of a callback is its `state` parameter wherever it stands: a
/// leading piece that is not a `state=` pair is passed over.
pub proof fn law_callback_state_skips_other_piece(piece: Seq<char>, rest: Seq<char>)
    requires
        !piece.contains('&'),
        segment_value(piece, "state"@) is None,
    ensures
        callback_state(piece + seq!['&'] + rest) == callback_state(rest),
{
    law_param_skips_other_piece(piece, rest, "state"@);
}

/// A callback that carries the code before the state (the order the
/// identity provider uses) names the state it carries.
pub proof fn law_state_after_code(code: Seq<char>, csrf_state: Seq<char>)
    requires
        plain_text(code),
        plain_text(csrf_state),
    ensures
        callback_state(param_pair("code"@, code) + seq!['&'] + param_pair("state"@, csrf_state)) == csrf_state,
        callback_code(param_pair("code"@, code) + seq!['&'] + param_pair("state"@, csrf_state)) == code,
{
    reveal_strlit("state");
    reveal_strlit("code");
    let state_name = "state"@;
    let code_name = "code"@;
    assert(plain_text(state_name));
    assert(plain_text(code_name));
    let first = param_pair(code_name, code);
    let second = param_pair(state_name, csrf_state);
    law_param_read_back(code_name, code, second);
    law_param_read_back(state_name, csrf_state, Seq::<char>::empty());
    assert(!first.contains('&')) by {
        if first.contains('&') {
            let i = choose|i: int| 0 <= i < first.len() && first[i] == '&';
            if i < code_name.len() {
                assert(code_name[i] == '&');
            } else if i > code_name.len() {
                assert(code[i - code_name.len() - 1] == '&');
            }
        }
    }
    lemma_split_without_separator(code_name, '=');
    lemma_split_without_separator(code, '=');
    lemma_split_concat(code_name, code, '=');
    assert(first =~= code_name + seq!['='] + code);
    assert(split_on(first, '=') =~= seq![code_name, code]);
    assert(state_name[0] != code_name[0]);
    assert(segment_value(first, state_name) is None);
    law_param_skips_other_piece(first, second, state_name);
}

} // verus!
