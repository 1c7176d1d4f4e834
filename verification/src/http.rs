use vstd::prelude::*;

verus! {

/// The status codes that the service answers with.
#[derive(PartialEq, Eq, Structural)]
pub enum HttpStatus {
    Success,
    Found,
    Unauthorized,
}

/// The cookie that carries a signed session token back to the browser.
pub struct AuthCookie {
    pub name: String,
    pub value: String,
    pub path: String,
    pub secure: bool,
    pub http_only: bool,
}

/// An answer to an HTTP request: its status, an optional `Location`
/// header, an optional cookie and an optional body.
pub struct HttpOutcome {
    pub status: HttpStatus,
    pub location: Option<String>,
    pub cookie: Option<AuthCookie>,
    pub body: Option<String>,
}

/// `outcome` is a bare 401 with nothing else in it.
pub open spec fn is_bare_unauthorized(outcome: HttpOutcome) -> bool {
    &&& outcome.status == HttpStatus::Unauthorized
    &&& outcome.location is None
    &&& outcome.cookie is None
    &&& outcome.body is None
}

/// `outcome` has status `status`, no header or cookie, and body `body`.
pub open spec fn is_message(outcome: HttpOutcome, status: HttpStatus, body: Seq<char>) -> bool {
    &&& outcome.status == status
    &&& outcome.location is None
    &&& outcome.cookie is None
    &&& outcome.body matches Some(b) && b@ == body
}

/// `outcome` is a 302 to `location` that sets no cookie and has no body.
pub open spec fn is_plain_redirect(outcome: HttpOutcome, location: Seq<char>) -> bool {
    &&& outcome.status == HttpStatus::Found
    &&& outcome.location matches Some(l) && l@ == location
    &&& outcome.cookie is None
    &&& outcome.body is None
}

impl HttpOutcome {
    /// A 401 without a body.
    pub fn unauthorized() -> (outcome: HttpOutcome)
        ensures
            is_bare_unauthorized(outcome),
    {
        HttpOutcome { status: HttpStatus::Unauthorized, location: None, cookie: None, body: None }
    }

    /// A response with status `status` and body `body`.
    pub fn message(status: HttpStatus, body: String) -> (outcome: HttpOutcome)
        ensures
            is_message(outcome, status, body@),
    {
        HttpOutcome { status, location: None, cookie: None, body: Some(body) }
    }

    /// A 302 to `location`.
    pub fn redirect(location: String) -> (outcome: HttpOutcome)
        ensures
            is_plain_redirect(outcome, location@),
            outcome.location == Some(location),
    {
        HttpOutcome { status: HttpStatus::Found, location: Some(location), cookie: None, body: None }
    }
}


/// A redirect carries its target verbatim, whatever characters the target
/// holds (query parameters and all), and redirects to different targets
/// never share a `Location`.
pub proof fn law_redirect_carries_target(o1: HttpOutcome, u1: Seq<char>, o2: HttpOutcome, u2: Seq<char>)
    requires
        is_plain_redirect(o1, u1),
        is_plain_redirect(o2, u2),
    ensures
        o1.status == HttpStatus::Found,
        o1.location is Some && o1.location->0@ == u1,
        u1 != u2 ==> o1.location->0@ != o2.location->0@,
{
}

} // verus!
