//! Records of the HTTP API.

use vstd::prelude::*;

verus! {

/// A linked social account as the API shows it.
#[derive(Debug)]
pub struct SomeAccount {
    pub id: i64,
    pub network: String,
    pub url: String,
    pub nick: String,
}

impl SomeAccount {
    pub fn new(id: i64, network: String, url: String, nick: String) -> (r: SomeAccount)
        ensures
            r == (SomeAccount { id, network, url, nick }),
    {
        SomeAccount { id, network, url, nick }
    }
}

} // verus!
