use vstd::prelude::*;

verus! {

/// A value drawn by `rand::random_range` from the half-open range `low..high`,
/// using the thread-local generator, together with (as ghost) the range it
/// was drawn from.
///
/// Trusted: the value depends on the generator's state, so the contract
/// states only what holds of every outcome, that it lies in the range. The
/// function panics on an empty range, which `requires` leaves out.
#[verifier::external_body]
pub(crate) fn random_in_range(low: u64, high: u64) -> (drawn: (u64, Ghost<(int, int)>))
    requires
        low < high,
    ensures
        low <= drawn.0 < high,
        drawn.1@ == (low as int, high as int),
{
    (rand::random_range(low..high), Ghost((low as int, high as int)))
}

} // verus!
