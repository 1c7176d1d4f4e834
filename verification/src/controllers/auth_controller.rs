use vstd::prelude::*;

verus! {

/// How a request's origin is named in the log: its peer address, or
/// `unknown` when the connection has none.
pub fn peer_label(peer_addr: Option<String>) -> (label: String)
    ensures
        match peer_addr {
            Some(a) => label@ == a@,
            None => label@ == "unknown"@,
        },
{
    match peer_addr {
        Some(a) => a,
        None => "unknown".to_owned(),
    }
}

} // verus!
