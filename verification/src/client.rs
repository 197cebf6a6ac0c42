//! The client's credentials and settings.
use vstd::prelude::*;

verus! {

/// A BitUnix futures API client: credentials, the REST domain and flags.
#[derive(Clone, Debug)]
pub struct BitUnixClient {
    pub debug: bool,
    pub testnet: bool,
    pub api_key: String,
    pub secret_key: String,
    pub domain: String,
}

impl BitUnixClient {
    /// A client with the given flags, credentials and domain.
    pub fn new(debug: bool, testnet: bool, api_key: String, secret_key: String, domain: String) -> (res: Self)
        ensures
            res.debug == debug,
            res.testnet == testnet,
            res.api_key@ == api_key@,
            res.secret_key@ == secret_key@,
            res.domain@ == domain@,
    {
        BitUnixClient { debug, testnet, api_key, secret_key, domain }
    }
}

} // verus!
