//! Listening-configuration defaults: the bind host and port fall back to the
//! loopback address and the default port when no setting is given.

use vstd::prelude::*;
use vstd::string::StringExecFns;

verus! {

/// The bind host to listen on: the configured one, or the loopback address.
pub fn effective_host(configured: Option<String>) -> (h: String)
    ensures
        configured matches Some(s) ==> h@ == s@,
        configured is None ==> h@ == "127.0.0.1"@,
{
    match configured {
        Some(s) => s,
        None => ("127.0.0.1").to_owned(),
    }
}

/// The bind port to listen on, as text: the configured one, or the default
/// port 8000.
pub fn effective_port_text(configured: Option<String>) -> (p: String)
    ensures
        configured matches Some(s) ==> p@ == s@,
        configured is None ==> p@ == "8000"@,
{
    match configured {
        Some(s) => s,
        None => ("8000").to_owned(),
    }
}

/// The listening address the server binds, as text: the host and port joined
/// by a colon.
pub fn bind_address(host: String, port: &String) -> (a: String)
    ensures
        a@ == host@ + ":"@ + port@,
{
    let with_sep = host.concat(":");
    with_sep.concat(port.as_str())
}

} // verus!
