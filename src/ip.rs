use vstd::prelude::*;

verus! {

/// The usual initial TTL that a received TTL was most likely sent with:
/// the least of 64, 128 and 255 that is not below it.
pub open spec fn initial_ttl_of(ttl: u8) -> u8 {
    if ttl <= 64 {
        64
    } else if ttl <= 128 {
        128
    } else {
        255
    }
}

/// Infers the initial TTL that a reply with the given TTL was sent with.
pub fn guess_initial_ttl(ttl: u8) -> (r: u8)
    ensures
        r == initial_ttl_of(ttl),
        r >= ttl,
        r == 64 || r == 128 || r == 255,
{
    if ttl <= 64 {
        64
    } else if ttl <= 128 {
        128
    } else {
        255
    }
}

/// The number of hops a reply with the given TTL has travelled.
pub fn hop_count(ttl: u8) -> (r: u8)
    ensures
        r == initial_ttl_of(ttl) - ttl,
{
    guess_initial_ttl(ttl) - ttl
}

/// Hop inference: the inferred initial TTL is the least of 64, 128 and 255
/// that is at least the received TTL, and the hop count is their difference,
/// never negative.
pub proof fn lemma_hop_inference(ttl: u8, x: u8)
    requires
        x == 64 || x == 128 || x == 255,
        x >= ttl,
    ensures
        initial_ttl_of(ttl) >= ttl,
        initial_ttl_of(ttl) <= x,
        initial_ttl_of(ttl) == 64 || initial_ttl_of(ttl) == 128 || initial_ttl_of(ttl) == 255,
        initial_ttl_of(ttl) - ttl >= 0,
{
}

} // verus!
