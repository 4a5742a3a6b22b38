use vstd::prelude::*;
use rand::Rng;

verus! {

/// Relies on rand's `Rng::gen_ratio` on the thread-local generator: the call
/// returns true with probability `numerator/denominator`. Its source makes it
/// certainly true when numerator and denominator are equal and certainly false
/// when the numerator is zero; it panics unless `0 < denominator` and
/// `numerator <= denominator`.
#[verifier::external_body]
pub(crate) fn coin_with_ratio(numerator: u32, denominator: u32) -> (r: bool)
    requires
        0 < denominator,
        numerator <= denominator,
    ensures
        numerator == denominator ==> r,
        numerator == 0 ==> !r,
{
    rand::thread_rng().gen_ratio(numerator, denominator)
}

} // verus!
