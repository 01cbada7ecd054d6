//! One step of the serial ingestion loop: a chunk read from the scale is
//! published to the cache unless it is empty or noise.
use vstd::prelude::*;
use crate::cache::{publish_on, Cache};
use crate::noise::{is_noise, is_relevant_data};
use vstd::slice::slice_to_vec;

verus! {

/// Whether a chunk read from the scale is published.
pub open spec fn is_published(chunk: Seq<u8>) -> bool {
    chunk.len() > 0 && !is_noise(chunk)
}

/// Handles a chunk read from the scale at `now_ms`: publishes a copy of it
/// when it is a reading, and says whether it did.
pub fn ingest_chunk(cache: &mut Cache, chunk: &[u8], now_ms: u64) -> (r: bool)
    ensures
        r == is_published(chunk@),
        r ==> final(cache)@ == publish_on(old(cache)@, chunk@, now_ms),
        !r ==> final(cache)@ == old(cache)@,
{
    if chunk.len() > 0 && is_relevant_data(chunk) {
        cache.set(slice_to_vec(chunk), now_ms);
        true
    } else {
        false
    }
}

} // verus!
