//! Session-wide configuration: the number of registered clients.

use vstd::prelude::*;

verus! {

/// Immutable session configuration, created once before registration.
pub struct Config {
    users_number: u32,
}

impl Config {
    /// The registered-client population size `N`.
    pub closed spec fn spec_users_number(&self) -> u32 {
        self.users_number
    }

    pub fn new(users_number: u32) -> (c: Config)
        ensures
            c.spec_users_number() == users_number,
    {
        Config { users_number }
    }

    pub fn get_users_number(&self) -> (n: u32)
        ensures
            n == self.spec_users_number(),
    {
        self.users_number
    }
}

} // verus!
