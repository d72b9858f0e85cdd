use vstd::prelude::*;

verus! {

/// Lowest value that relationship health can take.
pub const MIN_HEALTH: i8 = 0;

/// Highest value that relationship health can take.
pub const MAX_HEALTH: i8 = 100;

/// `value` forced into `[MIN_HEALTH, MAX_HEALTH]`.
pub open spec fn clamp_health(value: int) -> int {
    if value < MIN_HEALTH {
        MIN_HEALTH as int
    } else if value > MAX_HEALTH {
        MAX_HEALTH as int
    } else {
        value
    }
}

/// A health value within `[MIN_HEALTH, MAX_HEALTH]`.
pub open spec fn health_in_range(health: int) -> bool {
    MIN_HEALTH <= health <= MAX_HEALTH
}

/// The health after `delta` is added to `health`: the sum clamped into range.
///
/// The sum is taken in `i16`, so every pair of `i8` values is accepted: a sum
/// of 130 gives 100, one of -5 gives 0.
pub fn clamped_sum(health: i8, delta: i8) -> (next: i8)
    ensures
        next == clamp_health(health + delta),
        health_in_range(next as int),
{
    let sum: i16 = health as i16 + delta as i16;
    if sum < MIN_HEALTH as i16 {
        MIN_HEALTH
    } else if sum > MAX_HEALTH as i16 {
        MAX_HEALTH
    } else {
        sum as i8
    }
}

/// Whatever the sum, the clamped health lies in `[MIN_HEALTH, MAX_HEALTH]`.
pub proof fn lemma_clamp_in_range(value: int)
    ensures
        health_in_range(clamp_health(value)),
{
}

/// Clamping leaves a health already in range as it is, and clamping twice is
/// clamping once.
pub proof fn lemma_in_range_is_fixed(health: int, value: int)
    requires
        health_in_range(health),
    ensures
        clamp_health(health) == health,
        clamp_health(clamp_health(value)) == clamp_health(value),
{
}

/// A larger change never leaves a lower health than a smaller one.
pub proof fn lemma_clamp_monotonic(health: int, smaller: int, larger: int)
    requires
        smaller <= larger,
    ensures
        clamp_health(health + smaller) <= clamp_health(health + larger),
{
}

/// A sum below the range gives `MIN_HEALTH`, one above it `MAX_HEALTH`.
pub proof fn lemma_clamp_saturates(value: int)
    ensures
        value <= MIN_HEALTH ==> clamp_health(value) == MIN_HEALTH,
        value >= MAX_HEALTH ==> clamp_health(value) == MAX_HEALTH,
{
}

} // verus!
