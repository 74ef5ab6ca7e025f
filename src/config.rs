//! Settings of the client.
use vstd::prelude::*;

verus! {

/// Where the OAuth client secret is read from unless configured otherwise.
pub const DEFAULT_CLIENT_SECRET: &'static str = "client_secret.json";

/// The client's settings.
#[derive(Debug)]
pub struct Cfg {
    /// Path of the OAuth client secret file.
    pub client_secret: String,
}

impl Default for Cfg {
    fn default() -> (r: Cfg)
        ensures
            r.client_secret@ == DEFAULT_CLIENT_SECRET@,
    {
        Cfg { client_secret: String::from_str(DEFAULT_CLIENT_SECRET) }
    }
}

} // verus!
