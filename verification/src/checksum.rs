//! CRC32 (IEEE) checksums, computed by `crc32fast`.

use vstd::prelude::*;

verus! {

/// The CRC32 (IEEE) checksum of a byte string, as `crc32fast::hash` computes it.
pub uninterp spec fn crc32_ieee(bytes: Seq<u8>) -> u32;

/// Calls `crc32fast::hash`. Trusted: the result is the CRC32 checksum of
/// exactly the bytes given, which is a function of those bytes alone.
#[verifier::external_body]
pub(crate) fn crc32(bytes: &[u8]) -> (sum: u32)
    ensures
        sum == crc32_ieee(bytes@),
{
    crc32fast::hash(bytes)
}

} // verus!
