//! The one random draw the library makes: a uniform integer used to
//! populate the dataset at construction.

use vstd::prelude::*;
use rand::Rng;

verus! {

/// Relies on rand::Rng::gen_range on a thread-local generator: on a
/// non-empty inclusive range it returns a value inside that range, and
/// nothing more is promised of a random draw.
#[verifier::external_body]
pub(crate) fn draw_reading(low: u32, high: u32) -> (r: u32)
    requires
        low <= high,
    ensures
        low <= r <= high,
{
    rand::thread_rng().gen_range(low..=high)
}

} // verus!
