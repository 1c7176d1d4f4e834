use openidconnect::{Nonce, PkceCodeVerifier};
use vstd::prelude::*;

verus! {

/// The PKCE code verifier of the OpenID Connect library, carried as an opaque value.
#[verifier::external_type_specification]
#[verifier::external_body]
pub struct ExPkceCodeVerifier(PkceCodeVerifier);

/// The ID-token nonce of the OpenID Connect library, carried as an opaque value.
#[verifier::external_type_specification]
#[verifier::external_body]
pub struct ExNonce(Nonce);

/// What a pending login remembers between the redirect to the identity
/// provider and the provider's callback.
pub struct OidcState {
    redirect_uri: String,
    pkce_verifier: Option<PkceCodeVerifier>,
    nonce: Option<Nonce>,
}

/// The contents of an [`OidcState`].
pub struct OidcStateView {
    pub redirect_uri: Seq<char>,
    pub pkce_verifier: Option<PkceCodeVerifier>,
    pub nonce: Option<Nonce>,
}

impl OidcStateView {
    /// Both secrets are still held: nothing has been taken out yet.
    pub open spec fn is_fresh(self) -> bool {
        self.pkce_verifier is Some && self.nonce is Some
    }
}

impl View for OidcState {
    type V = OidcStateView;

    closed spec fn view(&self) -> OidcStateView {
        OidcStateView {
            redirect_uri: self.redirect_uri@,
            pkce_verifier: self.pkce_verifier,
            nonce: self.nonce,
        }
    }
}

impl OidcState {
    /// A pending login that will send the user to `redirect_uri` and holds
    /// both the PKCE verifier and the nonce.
    pub fn new(redirect_uri: String, pkce_verifier: PkceCodeVerifier, nonce: Nonce) -> (state: OidcState)
        ensures
            state@.redirect_uri == redirect_uri@,
            state@.pkce_verifier == Some(pkce_verifier),
            state@.nonce == Some(nonce),
    {
        OidcState { redirect_uri, pkce_verifier: Some(pkce_verifier), nonce: Some(nonce) }
    }

    /// Where the user goes once the login has completed.
    pub fn redirect_uri(&self) -> (uri: &String)
        ensures
            uri@ == self@.redirect_uri,
    {
        &self.redirect_uri
    }

    /// The PKCE verifier, if it has not been taken out.
    pub fn pkce_verifier(&self) -> (verifier: &Option<PkceCodeVerifier>)
        ensures
            *verifier == self@.pkce_verifier,
    {
        &self.pkce_verifier
    }

    /// The nonce, if it has not been taken out.
    pub fn nonce(&self) -> (nonce: &Option<Nonce>)
        ensures
            *nonce == self@.nonce,
    {
        &self.nonce
    }

    /// Hands out the PKCE verifier and leaves none behind.
    pub fn take_pkce_verifier(&mut self) -> (verifier: Option<PkceCodeVerifier>)
        ensures
            verifier == old(self)@.pkce_verifier,
            final(self)@ == (OidcStateView { pkce_verifier: None, ..old(self)@ }),
    {
        self.pkce_verifier.take()
    }

    /// Hands out the nonce and leaves none behind.
    pub fn take_nonce(&mut self) -> (nonce: Option<Nonce>)
        ensures
            nonce == old(self)@.nonce,
            final(self)@ == (OidcStateView { nonce: None, ..old(self)@ }),
    {
        self.nonce.take()
    }
}

/// Each secret of a pending login is handed out once: a first take returns
/// what the login stored, every later take returns nothing, and taking one
/// secret leaves the other and the redirect target untouched.
pub proof fn law_secrets_taken_once(s0: OidcStateView, s1: OidcStateView, s2: OidcStateView, taken1: Option<PkceCodeVerifier>, taken2: Option<PkceCodeVerifier>)
    requires
        taken1 == s0.pkce_verifier,
        s1 == (OidcStateView { pkce_verifier: None, ..s0 }),
        taken2 == s1.pkce_verifier,
        s2 == (OidcStateView { pkce_verifier: None, ..s1 }),
    ensures
        taken2 is None,
        s2 == s1,
        s1.nonce == s0.nonce,
        s1.redirect_uri == s0.redirect_uri,
{
}

} // verus!
