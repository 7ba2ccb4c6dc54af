//! Reading a little-endian machine word out of a run of bytes, as the
//! controller does when it inspects an eight-byte result the target wrote
//! (for instance a timestamp left by an injected syscall).

use vstd::prelude::*;

verus! {

/// The value a run of bytes denotes in little-endian order: the first byte
/// is the least significant.
pub open spec fn le_value(data: Seq<u8>) -> nat
    decreases data.len(),
{
    if data.len() == 0 {
        0
    } else {
        data[0] as nat + 256 * le_value(data.skip(1))
    }
}

/// 256 raised to the given power: the number of values a run of that many
/// bytes can denote.
pub open spec fn pow256(n: nat) -> nat
    decreases n,
{
    if n == 0 {
        1
    } else {
        256 * pow256((n - 1) as nat)
    }
}

/// A run of `n` bytes denotes a value below `pow256(n)`.
pub proof fn lemma_le_value_bound(data: Seq<u8>)
    ensures
        le_value(data) < pow256(data.len()),
    decreases data.len(),
{
    if data.len() > 0 {
        lemma_le_value_bound(data.skip(1));
    }
}

/// Reads the eight-byte little-endian value.
pub fn u64_from_le_bytes(data: &[u8]) -> (r: u64)
    requires
        data@.len() == 8,
    ensures
        r as nat == le_value(data@),
{
    proof {
        reveal_with_fuel(pow256, 9);
    }
    let mut acc: u64 = 0;
    let mut i: usize = 8;
    while i > 0
        invariant
            data@.len() == 8,
            i <= 8,
            acc as nat == le_value(data@.skip(i as int)),
            acc < pow256((8 - i) as nat),
        decreases i,
    {
        proof {
            reveal_with_fuel(pow256, 9);
            assert(data@.skip(i - 1).skip(1) =~= data@.skip(i as int));
            lemma_le_value_bound(data@.skip(i as int));
            assert(le_value(data@.skip(i - 1)) == data@[i - 1] as nat + 256 * le_value(
                data@.skip(i as int),
            ));
        }
        acc = acc * 256 + (data[i - 1] as u64);
        i = i - 1;
    }
    proof {
        assert(data@.skip(0) =~= data@);
    }
    acc
}

} // verus!
