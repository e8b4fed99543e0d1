//! Replay analyzer for a team-based class shooter's recorded demos.
//!
//! The crate consumes the decoded message stream of a demo — packet entities,
//! game events, temp entities, string-table entries and user messages, each
//! tagged with a tick — maintains a tick-by-tick entity world, resolves every
//! damage and death event to a canonical weapon name, and accumulates
//! per-player statistics into a structured match summary.
//!
//! The bitstream demuxer that yields the typed messages, the schema file
//! loader and any I/O live outside this crate; they hand plain values in and
//! take plain values back.
use vstd::prelude::*;

pub mod collide;
pub mod entity;
pub mod external;
pub mod game;
pub mod laws;
pub mod maps;
pub mod messages;
pub mod props;
pub mod schema;
pub mod stats;
pub mod summarizer;
pub mod summary;
pub mod weapon;

verus! {

/// True when a counter is zero; serialization keeps only non-zero counters.
pub fn is_zero(num: &u32) -> (r: bool)
    ensures
        r == (*num == 0),
{
    *num == 0
}

/// True when a flag is unset; serialization keeps only set flags.
pub fn is_false(b: &bool) -> (r: bool)
    ensures
        r == !*b,
{
    !*b
}

} // verus!
