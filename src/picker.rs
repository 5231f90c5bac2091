use rand::rngs::StdRng;
use rand::Rng;
use vstd::prelude::*;

verus! {

/// The reason a draw was refused.
#[derive(Clone, Copy, Debug, PartialEq, Eq, Structural)]
pub enum PickError {
    /// The upper bound was below one, so the range `1..=bound` is empty.
    InvalidBound,
}

/// Declares rand's seedable generator `StdRng`, carried through opaquely.
#[verifier::external_type_specification]
#[verifier::external_body]
pub struct ExStdRng(StdRng);

/// The value that a draw from `low..=high` yields on a `StdRng` in state `rng`.
pub uninterp spec fn seeded_draw(rng: StdRng, low: u32, high: u32) -> u32;

/// The state that a `StdRng` in state `rng` is left in by a draw from `low..=high`.
pub uninterp spec fn seeded_next(rng: StdRng, low: u32, high: u32) -> StdRng;

/// Relies on `rand::Rng::gen_range` with an inclusive integer range on
/// `StdRng`: for `low <= high` it returns a value in `low..=high` (it panics
/// only on an empty range, which `requires` leaves out). `StdRng` is a
/// deterministic generator, so the value and the state it leaves behind
/// depend on its state and the range alone.
#[verifier::external_body]
fn gen_inclusive(rng: &mut StdRng, low: u32, high: u32) -> (r: u32)
    requires
        low <= high,
    ensures
        low <= r <= high,
        r == seeded_draw(*old(rng), low, high),
        *final(rng) == seeded_next(*old(rng), low, high),
{
    rng.gen_range(low..=high)
}

/// Relies on `rand::thread_rng` and `rand::Rng::gen_range` with an inclusive
/// integer range: for `low <= high` the thread-local generator yields a value
/// in `low..=high`.
#[verifier::external_body]
fn gen_inclusive_thread(low: u32, high: u32) -> (r: u32)
    requires
        low <= high,
    ensures
        low <= r <= high,
{
    rand::thread_rng().gen_range(low..=high)
}

/// Draws an integer from `1..=bound` using the thread-local generator.
///
/// A `bound` of zero leaves nothing to draw from and is refused with
/// `PickError::InvalidBound`; it is never clamped. With `bound == 1` the only
/// possible draw is `1`.
pub fn pick_random(bound: u32) -> (result: Result<u32, PickError>)
    ensures
        result is Ok <==> bound >= 1,
        result == Err::<u32, PickError>(PickError::InvalidBound) <==> bound == 0,
        result matches Ok(r) ==> 1 <= r <= bound,
        bound == 1 ==> result == Ok::<u32, PickError>(1),
{
    if bound == 0 {
        return Err(PickError::InvalidBound);
    }
    Ok(gen_inclusive_thread(1, bound))
}

/// Draws an integer from `1..=bound` using the generator handed in, so that a
/// caller can seed it and replay the same sequence of draws: the draw and the
/// generator's next state depend on its current state and `bound` alone.
///
/// A `bound` of zero is refused with `PickError::InvalidBound`; the generator
/// is then left untouched.
pub fn pick_random_with(rng: &mut StdRng, bound: u32) -> (result: Result<u32, PickError>)
    ensures
        result is Ok <==> bound >= 1,
        result == Err::<u32, PickError>(PickError::InvalidBound) <==> bound == 0,
        result matches Ok(r) ==> 1 <= r <= bound,
        bound == 1 ==> result == Ok::<u32, PickError>(1),
        bound >= 1 ==> result == Ok::<u32, PickError>(seeded_draw(*old(rng), 1, bound)),
        bound >= 1 ==> *final(rng) == seeded_next(*old(rng), 1, bound),
        bound == 0 ==> *final(rng) == *old(rng),
{
    if bound == 0 {
        return Err(PickError::InvalidBound);
    }
    Ok(gen_inclusive(rng, 1, bound))
}

} // verus!
