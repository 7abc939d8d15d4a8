//! The one random primitive the selection engine draws from.

use vstd::prelude::*;

verus! {

/// Relies on rand::Rng::gen_range over the half-open range 0..n: it
/// returns a value drawn uniformly from that range, and panics only when
/// the range is empty, which the precondition rules out.  Nothing more
/// can be promised of a single draw.
#[verifier::external_body]
pub(crate) fn random_below(n: usize) -> (r: usize)
    requires
        n >= 1,
    ensures
        r < n,
{
    rand::Rng::gen_range(&mut rand::thread_rng(), 0..n)
}

} // verus!
