use crate::data_models::role::{role_names, Role};
use crate::data_models::user::{User, UserView};
use std::str::FromStr;
use uuid::Uuid;
use vstd::prelude::*;

verus! {

/// The 128 bits of the UUID that `Uuid::from_str` reads from `s`, or `None`
/// where it refuses `s`.
pub uninterp spec fn uuid_from_str(s: Seq<char>) -> Option<u128>;

/// `uuid::Uuid::from_str` (which is `Uuid::parse_str`), with the parsed UUID
/// given as its 128-bit value (`Uuid::as_u128`). The contract claims only
/// that the outcome is a function of the text; which texts parse, and to
/// what, is left to the crate.
#[verifier::external_body]
fn parse_uuid(s: &str) -> (id: Option<u128>)
    ensures
        id == uuid_from_str(s@),
{
    match Uuid::from_str(s) {
        Ok(u) => Some(u.as_u128()),
        Err(_) => None,
    }
}

/// How long a session token stays valid, in seconds.
pub const TOKEN_LIFETIME_SECS: u64 = 3600;

/// The claims of a session token.
pub struct Claims {
    pub oid: u128,
    pub exp: u64,
    pub iss: String,
    pub aud: String,
    pub email: String,
    pub name: String,
    pub roles: Vec<Role>,
}

/// The issuer that session tokens name and that validation accepts.
pub open spec fn token_issuer() -> Seq<char> {
    "test"@
}

/// The audience that session tokens name and that validation accepts.
pub open spec fn token_audience() -> Seq<char> {
    "test"@
}

/// `claims` are those of a session token for `user`, whose object id reads
/// as the UUID `oid`, issued at `now` (seconds since the Unix epoch).
pub open spec fn claims_for_user(claims: Claims, user: UserView, oid: u128, now: u64) -> bool {
    &&& claims.oid == oid
    &&& claims.exp == now + TOKEN_LIFETIME_SECS
    &&& claims.iss@ == token_issuer()
    &&& claims.aud@ == token_audience()
    &&& claims.email@ == user.email
    &&& claims.name@ == user.name
    &&& role_names(claims.roles@) == user.roles
}

/// The claims of a session token for `user`, given the UUID that the user's
/// object id reads as and the current time.
pub fn claims_for(user: User, oid: u128, now: u64) -> (claims: Claims)
    requires
        now + TOKEN_LIFETIME_SECS <= u64::MAX,
    ensures
        claims_for_user(claims, user@, oid, now),
        claims.oid == oid,
        claims.email == user.email,
        claims.name == user.name,
        claims.roles == user.roles,
{
    Claims {
        oid,
        exp: now + TOKEN_LIFETIME_SECS,
        iss: "test".to_owned(),
        aud: "test".to_owned(),
        email: user.email,
        name: user.name,
        roles: user.roles,
    }
}

/// The claims of a session token for `user` issued at `now`, or `None` when
/// the user's object id is not a UUID.
pub fn build_claims(user: User, now: u64) -> (claims: Option<Claims>)
    requires
        now + TOKEN_LIFETIME_SECS <= u64::MAX,
    ensures
        match uuid_from_str(user@.oid) {
            None => claims is None,
            Some(oid) => claims matches Some(c) && claims_for_user(c, user@, oid, now),
        },
{
    match parse_uuid(user.oid.as_str()) {
        Some(oid) => Some(claims_for(user, oid, now)),
        None => None,
    }
}

/// The issuers that token validation accepts.
pub fn accepted_issuers() -> (issuers: Vec<String>)
    ensures
        issuers@.map_values(|s: String| s@) == seq![token_issuer()],
{
    let mut issuers: Vec<String> = Vec::new();
    issuers.push("test".to_owned());
    assert(issuers@.map_values(|s: String| s@) =~= seq![token_issuer()]);
    issuers
}

/// The audiences that token validation accepts.
pub fn accepted_audiences() -> (audiences: Vec<String>)
    ensures
        audiences@.map_values(|s: String| s@) == seq![token_audience()],
{
    let mut audiences: Vec<String> = Vec::new();
    audiences.push("test".to_owned());
    assert(audiences@.map_values(|s: String| s@) =~= seq![token_audience()]);
    audiences
}

/// A session token names an issuer and an audience that validation accepts,
/// and it is not yet expired at the moment it is issued.
pub proof fn law_issued_claims_are_accepted(claims: Claims, user: UserView, oid: u128, now: u64)
    requires
        claims_for_user(claims, user, oid, now),
    ensures
        seq![token_issuer()].contains(claims.iss@),
        seq![token_audience()].contains(claims.aud@),
        claims.exp > now,
{
    assert(seq![token_issuer()][0] == claims.iss@);
    assert(seq![token_audience()][0] == claims.aud@);
}


/// Session-token claims copy the user verbatim: the object id, e-mail
/// address, name and role names are the user's, and two users who differ in
/// any of these get different claims.
pub proof fn law_claims_copy_user(c1: Claims, u1: UserView, oid1: u128, c2: Claims, u2: UserView, oid2: u128, now: u64)
    requires
        claims_for_user(c1, u1, oid1, now),
        claims_for_user(c2, u2, oid2, now),
    ensures
        c1.oid == oid1,
        c1.email@ == u1.email,
        c1.name@ == u1.name,
        role_names(c1.roles@) == u1.roles,
        u1.name != u2.name ==> c1.name@ != c2.name@,
        u1.email != u2.email ==> c1.email@ != c2.email@,
        u1.roles != u2.roles ==> role_names(c1.roles@) != role_names(c2.roles@),
{
}

} // verus!
