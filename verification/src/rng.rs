//! The one random draw the core makes: picking one of a fixed, small set of
//! midnight announcements.

use vstd::prelude::*;

verus! {

/// Relies on rand: `Rng::gen_range(0..n)` on `thread_rng()` returns a value
/// of the non-empty range, so the result is below `n`. Nothing else holds of
/// a random draw.
#[verifier::external_body]
fn random_below(n: u64) -> (r: u64)
    requires
        n > 0,
    ensures
        r < n,
{
    rand::Rng::gen_range(&mut rand::thread_rng(), 0..n)
}

/// Draw an index into a message list of the given length. Every caller gets
/// an in-range index; which one is chance.
pub fn pick_index(len: u64) -> (r: u64)
    requires
        len > 0,
    ensures
        r < len,
{
    random_below(len)
}

} // verus!
