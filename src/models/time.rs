//! Instants as stored by the site.
use vstd::prelude::*;

verus! {

/// An instant in UTC, as microseconds since the Unix epoch.
#[derive(Clone, Copy, Debug, PartialEq, Eq, Structural)]
pub struct Timestamp {
    pub unix_micros: i64,
}

impl Timestamp {
    /// The instant `unix_micros` microseconds after the Unix epoch.
    pub fn from_unix_micros(unix_micros: i64) -> (r: Timestamp)
        ensures
            r.unix_micros == unix_micros,
    {
        Timestamp { unix_micros }
    }
}

} // verus!
