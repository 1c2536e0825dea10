//! Persisted network-play server address record.

use vstd::prelude::*;
use vstd::string::StringExecFns;

verus! {

/// Address a network-play server binds to, kept as a plain string.
pub struct ServerConfiguration {
    pub bind_to: String,
}

/// The bind address used when the configuration does not name one.
pub fn default_bind() -> (r: String)
    ensures
        r@ == "0.0.0.0:21075"@,
{
    String::from_str("0.0.0.0:21075")
}

impl core::default::Default for ServerConfiguration {
    fn default() -> (r: ServerConfiguration)
        ensures
            r.bind_to@ == "0.0.0.0:21075"@,
    {
        ServerConfiguration { bind_to: default_bind() }
    }
}

} // verus!
