use siphasher::sip::SipHasher;
use std::hash::{Hash, Hasher};
use vstd::prelude::*;

verus! {

/// The number of shards the local process table is split into.
pub const PROCESS_SHARD_COUNT: usize = 1024;

/// The SipHash-2-4 digest, under the all-zero key, of `key` as `str`
/// feeds itself to a hasher.
pub uninterp spec fn sip_hash_of(key: Seq<char>) -> u64;

/// Hashes `key` with `siphasher::sip::SipHasher::new()` (SipHash-2-4, keys
/// zero) through `Hash for str`, and returns `finish()`.  The contract only
/// names the digest: it depends on the key alone.
#[verifier::external_body]
fn sip_hash(key: &str) -> (h: u64)
    ensures
        h == sip_hash_of(key@),
{
    let mut hasher = SipHasher::new();
    key.hash(&mut hasher);
    hasher.finish()
}

/// The shard of the process table that holds the process named `key`: its
/// SipHash digest modulo the number of shards.
pub fn shard_index(key: &str) -> (r: usize)
    ensures
        r as int == sip_hash_of(key@) as int % PROCESS_SHARD_COUNT as int,
        r < PROCESS_SHARD_COUNT,
{
    let hash = sip_hash(key);
    (hash % 1024) as usize
}

} // verus!
