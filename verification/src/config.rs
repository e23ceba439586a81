//! Endpoint configuration defaults. Environment lookup is a thin adapter
//! outside the library; it hands the raw lookup results in as plain
//! optional values and this module settles what they mean.

use vstd::prelude::*;
use vstd::string::StringExecFns;

verus! {

/// The looked-up value where one was set, the default otherwise.
pub fn key_or_default(value: Option<String>, default: &str) -> (r: String)
    ensures
        value matches Some(v) ==> r@ == v@,
        value is None ==> r@ == default@,
{
    match value {
        Some(v) => v,
        None => String::from_str(default),
    }
}

/// The endpoint the client connects to, from the raw environment lookups
/// of the hostname and port variables: each defaults to `localhost` and
/// `9001` where unset.
pub fn get_seismic_conf_from_env(hostname: Option<String>, port: Option<String>) -> (r: (
    String,
    String,
))
    ensures
        (hostname matches Some(h) ==> r.0@ == h@) && (hostname is None ==> r.0@ == "localhost"@),
        (port matches Some(p) ==> r.1@ == p@) && (port is None ==> r.1@ == "9001"@),
{
    let seismic_hostname = key_or_default(hostname, "localhost");
    let seismic_port = key_or_default(port, "9001");
    (seismic_hostname, seismic_port)
}

} // verus!
