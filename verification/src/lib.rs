//! Regenerates the weather and the start time of a mission document from a
//! configuration of named presets and weather profiles.

use vstd::prelude::*;

pub mod anchor;
pub mod config;
pub mod decimal;
pub mod error;
pub mod inherit;
pub mod misc;
pub mod random;
pub mod repack;
pub mod select;
pub mod text;
pub mod time;
pub mod weather;

verus! {

/// The heading opposite to `heading`: half a turn further, reduced to the
/// range from 0 to 359.
pub open spec fn flipped_heading(heading: int) -> int {
    (heading + 180) % 360
}

/// Turns a wind heading by 180 degrees.
pub fn flip_heading(heading: i32) -> (flipped: i32)
    ensures
        flipped == flipped_heading(heading as int),
        0 <= flipped < 360,
{
    let wide: i64 = heading as i64 + 180;
    let reduced: i64 = wide % 360;
    if reduced < 0 {
        (reduced + 360) as i32
    } else {
        reduced as i32
    }
}

/// Turning a heading twice leads back to it, up to whole turns.
pub proof fn lemma_flip_twice(heading: int)
    ensures
        flipped_heading(flipped_heading(heading)) == heading % 360,
{
}

} // verus!
