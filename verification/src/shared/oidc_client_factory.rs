use vstd::prelude::*;

verus! {

/// The OpenID Connect issuer of the Entra tenant `tenant_id`.
pub open spec fn issuer_url_for(tenant_id: Seq<char>) -> Seq<char> {
    "https://login.microsoftonline.com/"@ + tenant_id + "/v2.0"@
}

/// The issuer URL whose discovery document describes the Entra tenant `tenant_id`.
pub fn issuer_url(tenant_id: &str) -> (url: String)
    ensures
        url@ == issuer_url_for(tenant_id@),
{
    let mut url = "https://login.microsoftonline.com/".to_owned();
    url.append(tenant_id);
    url.append("/v2.0");
    url
}

} // verus!
