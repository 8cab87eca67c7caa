//! Random value generators for test suites: scalars, raw bytes, alphanumeric
//! strings. Each generator draws from a fresh process-local random source and
//! keeps no state across calls.

use vstd::prelude::*;

use core::ops::Range;
use core::ops::RangeInclusive;

verus! {

/// `c` is one of the 62 ASCII alphanumeric symbols: `A`-`Z`, `a`-`z`, `0`-`9`.
pub open spec fn is_alphanumeric_char(c: char) -> bool {
    ||| ('A' as u32) <= (c as u32) <= ('Z' as u32)
    ||| ('a' as u32) <= (c as u32) <= ('z' as u32)
    ||| ('0' as u32) <= (c as u32) <= ('9' as u32)
}

/// Relies on rand::random: one value drawn uniformly from the whole domain of
/// the requested type. Nothing can be promised of a uniformly random value.
pub assume_specification<T>[ rand::random::<T> ]() -> (r: T)
    where
        rand::distr::StandardUniform: rand::distr::Distribution<T>,
;

/// Generates a random value of type `T`, drawn uniformly from the type's
/// whole representable domain, from a fresh random source.
pub fn generate<T>() -> T where rand::distr::StandardUniform: rand::distr::Distribution<T> {
    rand::random::<T>()
}

/// Generates a vector of exactly `length` random bytes, each drawn
/// independently and uniformly.
pub fn generate_bytes(length: usize) -> (r: Vec<u8>)
    ensures
        r@.len() == length,
{
    let mut bytes: Vec<u8> = Vec::new();
    let mut i: usize = 0;
    while i < length
        invariant
            i <= length,
            bytes@.len() == i,
        decreases length - i,
    {
        let b: u8 = rand::random::<u8>();
        bytes.push(b);
        i = i + 1;
    }
    bytes
}

/// Relies on rand's Alphanumeric distribution: a `u8` uniformly distributed
/// over the ASCII letters and digits `a`-`z`, `A`-`Z` and `0`-`9`.
#[verifier::external_body]
fn sample_alphanumeric() -> (c: char)
    ensures
        is_alphanumeric_char(c),
{
    char::from(rand::distr::Distribution::sample(&rand::distr::Alphanumeric, &mut rand::rng()))
}

/// Relies on String::push: appends exactly one character at the end.
#[verifier::external_body]
fn push_char(s: &mut String, c: char)
    ensures
        final(s)@ == old(s)@.push(c),
{
    s.push(c);
}

/// Generates a string of exactly `length` characters, each drawn
/// independently and uniformly from the 62-symbol alphanumeric alphabet.
pub fn generate_alphanumeric(length: usize) -> (r: String)
    ensures
        r@.len() == length,
        forall|i: int| 0 <= i < r@.len() ==> is_alphanumeric_char(#[trigger] r@[i]),
{
    let mut s = String::new();
    let mut i: usize = 0;
    while i < length
        invariant
            i <= length,
            s@.len() == i,
            forall|j: int| 0 <= j < s@.len() ==> is_alphanumeric_char(#[trigger] s@[j]),
        decreases length - i,
    {
        let c = sample_alphanumeric();
        push_char(&mut s, c);
        i = i + 1;
    }
    s
}

/// Relies on rand::random_range: a value uniformly distributed within the
/// given range; the bounds here are inclusive and the range is never empty.
#[verifier::external_body]
fn sample_within(range: RangeInclusive<i64>) -> (r: i64)
    requires
        !range@.exhausted,
        range@.start <= range@.end,
    ensures
        range@.start <= r <= range@.end,
{
    rand::random_range(range)
}

/// Generates a value uniformly distributed within `range`, which must not be
/// empty: the result lies at or above the lower bound and strictly below the
/// upper bound.
pub fn generate_range(range: Range<i64>) -> (r: i64)
    requires
        range.start < range.end,
    ensures
        range.start <= r < range.end,
{
    sample_within(RangeInclusive::new(range.start, range.end - 1))
}

/// Generates a value uniformly distributed within the inclusive `range`,
/// which must not be empty: the result lies between the two bounds, both
/// included.
pub fn generate_range_inclusive(range: RangeInclusive<i64>) -> (r: i64)
    requires
        !range@.exhausted,
        range@.start <= range@.end,
    ensures
        range@.start <= r <= range@.end,
{
    sample_within(range)
}

} // verus!
