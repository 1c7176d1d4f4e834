use crate::http::{is_message, HttpOutcome, HttpStatus};
use crate::shared::token_cache::TokenCache;
use vstd::prelude::*;

verus! {

/// The status and body of the answer to a validation request that carries
/// `token` (if any), given the tokens already cached and whether the token's
/// signature and claims check out.
pub open spec fn validation_answer(cache: Set<Seq<char>>, token: Option<Seq<char>>, signature_valid: bool) -> (HttpStatus, Seq<char>) {
    match token {
        None => (HttpStatus::Unauthorized, "No token found in request."@),
        Some(t) => if cache.contains(t) {
            (HttpStatus::Success, "Token is cached."@)
        } else {
            checked_answer(signature_valid)
        },
    }
}

/// The status and body of the answer once a token's signature and claims
/// have been checked.
pub open spec fn checked_answer(signature_valid: bool) -> (HttpStatus, Seq<char>) {
    if signature_valid {
        (HttpStatus::Success, "Token is valid."@)
    } else {
        (HttpStatus::Unauthorized, "Token is invalid."@)
    }
}

/// The cache after answering a validation request: a token that checks out
/// is added (a cached token is not checked again, and adding it changes
/// nothing); nothing else changes.
pub open spec fn cache_after(cache: Set<Seq<char>>, token: Option<Seq<char>>, signature_valid: bool) -> Set<Seq<char>> {
    match token {
        Some(t) => if signature_valid {
            cache.insert(t)
        } else {
            cache
        },
        None => cache,
    }
}

/// What the endpoint does first with a request.
pub enum ValidationStep {
    /// Answer at once.
    Respond(HttpOutcome),
    /// The token is not cached: check its signature and claims, then call
    /// [`record_signature_check`].
    CheckSignature(String),
}

/// Decides what a validation request carrying `token` needs: a missing token
/// is refused, a cached token is accepted, any other token must be checked.
pub fn validation_step(cache: &TokenCache, token: Option<String>) -> (step: ValidationStep)
    ensures
        match token {
            None => step matches ValidationStep::Respond(o) && is_message(
                o,
                validation_answer(cache@, None, false).0,
                validation_answer(cache@, None, false).1,
            ),
            Some(t) => if cache@.contains(t@) {
                step matches ValidationStep::Respond(o) && is_message(
                    o,
                    validation_answer(cache@, Some(t@), false).0,
                    validation_answer(cache@, Some(t@), false).1,
                )
            } else {
                step matches ValidationStep::CheckSignature(u) && u@ == t@
            },
        },
{
    match token {
        None => ValidationStep::Respond(
            HttpOutcome::message(HttpStatus::Unauthorized, "No token found in request.".to_owned()),
        ),
        Some(t) => {
            if cache.contains(&t) {
                ValidationStep::Respond(
                    HttpOutcome::message(HttpStatus::Success, "Token is cached.".to_owned()),
                )
            } else {
                ValidationStep::CheckSignature(t)
            }
        },
    }
}

/// Answers a request whose uncached `token` has been checked: a token that
/// checks out is cached and accepted, any other is refused.
pub fn record_signature_check(cache: &mut TokenCache, token: String, signature_valid: bool) -> (outcome: HttpOutcome)
    ensures
        final(cache)@ == cache_after(old(cache)@, Some(token@), signature_valid),
        is_message(outcome, checked_answer(signature_valid).0, checked_answer(signature_valid).1),
{
    if signature_valid {
        cache.insert(token);
        HttpOutcome::message(HttpStatus::Success, "Token is valid.".to_owned())
    } else {
        HttpOutcome::message(HttpStatus::Unauthorized, "Token is invalid.".to_owned())
    }
}

/// The cache after a run of validation requests, each given as the token it
/// carries and whether that token checks out.
pub open spec fn cache_after_run(cache: Set<Seq<char>>, requests: Seq<(Option<Seq<char>>, bool)>) -> Set<Seq<char>>
    decreases requests.len(),
{
    if requests.len() == 0 {
        cache
    } else {
        cache_after_run(
            cache_after(cache, requests[0].0, requests[0].1),
            requests.drop_first(),
        )
    }
}

/// A request without a token is always refused.
pub proof fn law_missing_token_refused(cache: Set<Seq<char>>, signature_valid: bool)
    ensures
        validation_answer(cache, None, signature_valid).0 == HttpStatus::Unauthorized,
        cache_after(cache, None, signature_valid) == cache,
{
}

/// Once a token has been accepted, every later request that carries it is
/// accepted from the cache, whatever the signature check would now say.
pub proof fn law_accepted_token_stays_accepted(
    cache: Set<Seq<char>>,
    token: Seq<char>,
    signature_valid: bool,
    requests: Seq<(Option<Seq<char>>, bool)>,
    later_valid: bool,
)
    requires
        validation_answer(cache, Some(token), signature_valid).0 == HttpStatus::Success,
    ensures
        validation_answer(
            cache_after_run(cache_after(cache, Some(token), signature_valid), requests),
            Some(token),
            later_valid,
        ) == (HttpStatus::Success, "Token is cached."@),
{
    lemma_run_grows(cache_after(cache, Some(token), signature_valid), requests);
}

/// Answering requests never forgets a cached token.
pub proof fn lemma_run_grows(cache: Set<Seq<char>>, requests: Seq<(Option<Seq<char>>, bool)>)
    ensures
        cache.subset_of(cache_after_run(cache, requests)),
    decreases requests.len(),
{
    if requests.len() > 0 {
        lemma_run_grows(cache_after(cache, requests[0].0, requests[0].1), requests.drop_first());
    }
}

/// Starting from an empty cache, every cached token was carried by some
/// request whose signature check succeeded: no token is ever accepted
/// without having been checked once.
pub proof fn law_cached_tokens_were_checked(requests: Seq<(Option<Seq<char>>, bool)>, token: Seq<char>)
    requires
        cache_after_run(Set::<Seq<char>>::empty(), requests).contains(token),
    ensures
        exists|i: int| 0 <= i < requests.len() && #[trigger] requests[i] == (Some(token), true),
{
    lemma_cached_tokens_were_checked(Set::<Seq<char>>::empty(), requests, token);
}

proof fn lemma_cached_tokens_were_checked(cache: Set<Seq<char>>, requests: Seq<(Option<Seq<char>>, bool)>, token: Seq<char>)
    requires
        cache_after_run(cache, requests).contains(token),
        !cache.contains(token),
    ensures
        exists|i: int| 0 <= i < requests.len() && #[trigger] requests[i] == (Some(token), true),
    decreases requests.len(),
{
    let next = cache_after(cache, requests[0].0, requests[0].1);
    if next.contains(token) {
        assert(requests[0] == (Some(token), true));
    } else {
        lemma_cached_tokens_were_checked(next, requests.drop_first(), token);
        let i = choose|i: int| 0 <= i < requests.len() - 1 && #[trigger] requests.drop_first()[i] == (Some(token), true);
        assert(requests[i + 1] == (Some(token), true));
    }
}

} // verus!
