//! What the clock hands to each renderer on every tick.
use vstd::prelude::*;

verus! {

/// One tick of the clock.
#[derive(Debug, Clone)]
pub struct Context {
    /// Milliseconds since the epoch at the previous tick.
    pub previous_timestamp: i64,
    /// Milliseconds since the epoch at this tick.
    pub timestamp: i64,
    /// Clients connected at this tick.
    pub connection_count: usize,
    /// Local time, written `YYYY-MM-DD hh:mm:ss`.
    pub jst: String,
}

} // verus!
