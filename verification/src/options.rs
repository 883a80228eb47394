//! The server's settings.
use vstd::prelude::*;

verus! {

/// Where the server listens, and whether it takes clients without authentication.
pub struct Options {
    pub ip: String,
    pub port: u16,
    pub no_auth: bool,
}

} // verus!
