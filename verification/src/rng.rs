use vstd::prelude::*;
use crate::text::is_alnum_char;

verus! {

#[verifier::external_type_specification]
#[verifier::external_body]
pub struct ExThreadRng(rand::rngs::ThreadRng);

/// Relies on Rng::gen_range over `lo..hi`: a value of the non-empty range,
/// drawn uniformly.
#[verifier::external_body]
pub(crate) fn rand_in_range(rng: &mut rand::rngs::ThreadRng, lo: usize, hi: usize) -> (r: usize)
    requires
        lo < hi,
    ensures
        lo <= r < hi,
{
    rand::Rng::gen_range(rng, lo..hi)
}

/// Relies on Rng::sample with the Alphanumeric distribution: a byte drawn
/// uniformly from the ASCII letters and digits.
#[verifier::external_body]
pub(crate) fn rand_alnum_char(rng: &mut rand::rngs::ThreadRng) -> (c: char)
    ensures
        is_alnum_char(c),
{
    rand::Rng::sample(rng, rand::distributions::Alphanumeric) as char
}

/// Relies on Rng::gen_ratio: true with probability `num / den`; always true
/// when the ratio is one, never true when the numerator is zero.
#[verifier::external_body]
pub(crate) fn rand_ratio(rng: &mut rand::rngs::ThreadRng, num: u32, den: u32) -> (r: bool)
    requires
        0 < den,
        num <= den,
    ensures
        num == den ==> r,
        num == 0 ==> !r,
{
    rand::Rng::gen_ratio(rng, num, den)
}

} // verus!
