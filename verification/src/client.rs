//! Helpers for the remote client that fetches a snapshot and renders it
//! locally.  The request itself and the response parsing are outside work;
//! the endpoint address is assembled here.

use vstd::prelude::*;
use vstd::string::StringExecFns;

verus! {

/// The HTTP URI of the exporter's metrics endpoint at the given address.
pub fn metrics_http_uri(api_address: &str) -> (uri: String)
    ensures
        uri@ == "http://"@ + api_address@ + "/metrics"@,
{
    let mut uri = String::from_str("http://");
    uri.append(api_address);
    uri.append("/metrics");
    uri
}

} // verus!
