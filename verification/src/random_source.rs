use vstd::prelude::*;

verus! {

/// Declares bracket_lib's `RandomNumberGenerator` so that it can appear in
/// signatures; the value is opaque to the verifier and is only threaded
/// through to the draws below.
#[verifier::external_type_specification]
#[verifier::external_body]
pub struct ExRandomNumberGenerator(bracket_lib::random::RandomNumberGenerator);

/// Relies on bracket_lib's `RandomNumberGenerator::range`, which returns a
/// value inclusive of `min` and exclusive of `max` and panics on an empty
/// range; nothing more is assumed of which value comes out.
#[verifier::external_body]
pub(crate) fn rng_range(
    rng: &mut bracket_lib::random::RandomNumberGenerator,
    min: i32,
    max: i32,
) -> (r: i32)
    requires
        min < max,
    ensures
        min <= r < max,
{
    rng.range(min, max)
}

} // verus!
