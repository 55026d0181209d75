//! The address rewrite applied to decapsulated payloads.
//!
//! A decapsulated payload carries an IPv4 header; before it is fed back into
//! the tunnel's encapsulate operation, the 4-byte source-address field (bytes
//! 12 through 15) and the 4-byte destination-address field (bytes 16 through
//! 19) change places, so the local application sees the endpoint pairing it
//! expects. A buffer under 20 bytes has no such header and is not accepted.

use vstd::prelude::*;

verus! {

/// The buffer with its source and destination address fields exchanged.
pub open spec fn swapped_addresses(s: Seq<u8>) -> Seq<u8> {
    Seq::new(
        s.len(),
        |i: int|
            if 12 <= i < 16 {
                s[i + 4]
            } else if 16 <= i < 20 {
                s[i - 4]
            } else {
                s[i]
            },
    )
}

/// Exchanges the source and destination address fields of an IPv4 header in
/// place.
pub fn rewrite_addresses(b: &mut Vec<u8>)
    requires
        old(b)@.len() >= 20,
    ensures
        final(b)@ == swapped_addresses(old(b)@),
{
    let mut k: usize = 12;
    while k < 16
        invariant
            12 <= k <= 16,
            b@.len() == old(b)@.len() >= 20,
            forall|i: int|
                0 <= i < b@.len() ==> b@[i] == (if 12 <= i < k {
                    old(b)@[i + 4]
                } else if 16 <= i < k + 4 {
                    old(b)@[i - 4]
                } else {
                    old(b)@[i]
                }),
        decreases 16 - k,
    {
        let lo = b[k];
        let hi = b[k + 4];
        b.set(k, hi);
        b.set(k + 4, lo);
        k = k + 1;
    }
    assert(b@ =~= swapped_addresses(old(b)@));
}

/// The rewrite is its own inverse: applied twice to any buffer of 20 bytes
/// or more, it yields the original buffer.
pub proof fn lemma_rewrite_involution(s: Seq<u8>)
    requires
        s.len() >= 20,
    ensures
        swapped_addresses(swapped_addresses(s)) == s,
{
    assert(swapped_addresses(swapped_addresses(s)) =~= s);
}

} // verus!
