//! The page that tells how to clone a repository.

use vstd::prelude::*;
use vstd::string::StringExecFns;
use crate::text::{decimal, decimal_text};

verus! {

/// The address of the service as the clone page states it.
pub fn server_url(host: &str, port: u16) -> (url: String)
    ensures
        url@ == "http://"@ + host@ + ":"@ + decimal(port as nat),
{
    let mut url = String::from_str("http://");
    url.append(host);
    url.append(":");
    let port_text = decimal_text(port as u64);
    url.append(port_text.as_str());
    url
}

} // verus!
