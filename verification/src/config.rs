//! Where the collector is found.

use vstd::prelude::*;

verus! {

/// The port on which a collector listens unless told otherwise.
pub const DEFAULT_PORT: u16 = 5600;

/// The port on which a collector under test listens.
pub const TESTING_PORT: u16 = 5666;

/// The port to connect to: the one asked for, if any; else the port of a
/// collector under test where testing is on; else the default.
pub open spec fn selected_port(port: Option<u16>, testing: bool) -> u16 {
    match port {
        Some(asked) => asked,
        None => if testing {
            TESTING_PORT
        } else {
            DEFAULT_PORT
        },
    }
}

/// The port to connect to.
pub fn select_port(port: Option<u16>, testing: bool) -> (chosen: u16)
    ensures
        chosen == selected_port(port, testing),
{
    match port {
        Some(asked) => asked,
        None => if testing {
            TESTING_PORT
        } else {
            DEFAULT_PORT
        },
    }
}

/// The host on which the collector runs.
pub fn collector_host() -> (host: &'static str)
    ensures
        host@ == "localhost"@,
{
    "localhost"
}

} // verus!
