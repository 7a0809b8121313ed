use vstd::prelude::*;
use vstd::string::*;

use crate::password::{lower_of, lowercase};

verus! {

/// Where the relational store lives and how to sign in to it.
pub struct Database {
    pub db_name: String,
    pub user: String,
    pub host: String,
    pub password: String,
}

/// Process settings read once at startup.
pub struct Config {
    pub port: String,
    pub database: Database,
    pub log_level: String,
}

impl Config {
    pub fn new(port: String, database: Database, log_level: String) -> (r: Config)
        ensures
            r.port == port,
            r.database == database,
            r.log_level == log_level,
    {
        Config { port, database, log_level }
    }
}

/// The log levels that can be asked for, most verbose first.
pub open spec fn known_levels() -> Seq<Seq<char>> {
    seq!["trace"@, "debug"@, "info"@, "warn"@, "error"@]
}

/// The level that logging runs at when `level` is asked for: the named level,
/// in any case, or `info` for a name that is not a level.
pub open spec fn log_level_for(level: Seq<char>) -> Seq<char> {
    if known_levels().contains(lower_of(level)) {
        lower_of(level)
    } else {
        "info"@
    }
}

/// Picks the level that logging runs at.
pub fn log_filter(level: &str) -> (r: String)
    ensures
        r@ == log_level_for(level@),
{
    let lower = lowercase(level);
    let names = ["trace", "debug", "info", "warn", "error"];
    let mut i: usize = 0;
    while i < 5
        invariant
            0 <= i <= 5,
            names@ == seq!["trace", "debug", "info", "warn", "error"],
            lower@ == lower_of(level@),
            forall|j: int| 0 <= j < i ==> known_levels()[j] != lower@,
        decreases 5 - i,
    {
        let candidate = String::from_str(names[i]);
        if candidate == lower {
            assert(known_levels()[i as int] == lower@);
            return lower;
        }
        i = i + 1;
    }
    assert(!known_levels().contains(lower@));
    String::from_str("info")
}

} // verus!
