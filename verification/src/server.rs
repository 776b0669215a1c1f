//! The configuration of the server process.

use vstd::prelude::*;

verus! {

/// The port the web server listens on when the configuration names none.
pub fn default_web_port() -> (port: u16)
    ensures
        port == 8080,
{
    8080
}

} // verus!
