//! Package tags, as `destiny_pkg` defines them.

use vstd::prelude::*;
use destiny_pkg::{TagHash, TagHash64};

verus! {

#[verifier::external_type_specification]
#[verifier::external_body]
pub struct ExTagHash(TagHash);

#[verifier::external_type_specification]
#[verifier::external_body]
pub struct ExTagHash64(TagHash64);

/// The 32-bit number that a tag wraps.
pub uninterp spec fn tag_hash_value(tag: TagHash) -> u32;

/// The 64-bit number that a long tag wraps.
pub uninterp spec fn tag_hash64_value(tag: TagHash64) -> u64;

/// `u32::from` on a `destiny_pkg::TagHash`: hands out the number the tag
/// wraps, here under the name `tag_hash_value`.
#[verifier::external_body]
pub(crate) fn tag_value(tag: TagHash) -> (value: u32)
    ensures
        value == tag_hash_value(tag),
{
    u32::from(tag)
}

/// `u64::from` on a `destiny_pkg::TagHash64`: hands out the number the tag
/// wraps, here under the name `tag_hash64_value`.
#[verifier::external_body]
pub(crate) fn tag64_value(tag: TagHash64) -> (value: u64)
    ensures
        value == tag_hash64_value(tag),
{
    u64::from(tag)
}

} // verus!
