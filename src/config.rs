//! Settings the service starts with.
use vstd::prelude::*;

verus! {

/// Where the relational store is reached.
pub struct Config {
    pub db_url: String,
}

impl Config {
    pub fn new(db_url: String) -> (r: Config)
        ensures
            r.db_url@ == db_url@,
    {
        Config { db_url }
    }
}

} // verus!
