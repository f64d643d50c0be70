//! Reading little-endian integers and fixed tags out of raw account data.
use vstd::prelude::*;

verus! {

/// 256 to the power `n`.
pub open spec fn pow256(n: nat) -> nat
    decreases n,
{
    if n == 0 {
        1
    } else {
        256 * pow256((n - 1) as nat)
    }
}

/// The unsigned integer whose little-endian encoding is `s`.
pub open spec fn le_value(s: Seq<u8>) -> nat
    decreases s.len(),
{
    if s.len() == 0 {
        0
    } else {
        s[0] as nat + 256 * le_value(s.drop_first())
    }
}

proof fn lemma_pow256_below_u64(k: nat)
    requires
        k <= 7,
    ensures
        pow256(k) <= 0x100000000000000,
    decreases 7 - k,
{
    if k < 7 {
        lemma_pow256_below_u64(k + 1);
    } else {
        reveal_with_fuel(pow256, 8);
    }
}

/// Reads the `n`-byte little-endian integer that starts at `start`.
pub fn read_le(data: &Vec<u8>, start: usize, n: usize) -> (r: u64)
    requires
        n <= 8,
        start + n <= data@.len(),
    ensures
        r as nat == le_value(data@.subrange(start as int, start + n)),
{
    let len = data.len();
    let mut v: u64 = 0;
    let mut i: usize = n;
    while i > 0
        invariant
            len == data@.len(),
            n <= 8,
            start + n <= data@.len(),
            i <= n,
            v as nat == le_value(data@.subrange(start + i, start + n)),
            v < pow256((n - i) as nat),
        decreases i,
    {
        i -= 1;
        let b = data[start + i];
        proof {
            let s = data@.subrange(start + i, start + n);
            assert(s.drop_first() =~= data@.subrange(start + i + 1, start + n));
            assert(s[0] == b);
            lemma_pow256_below_u64((n - i - 1) as nat);
            assert(pow256((n - i) as nat) == 256 * pow256((n - i - 1) as nat));
        }
        v = v * 256 + b as u64;
    }
    v
}

/// Whether `data` starts with the eight bytes of `tag`.
pub fn has_tag(data: &Vec<u8>, tag: &[u8; 8]) -> (r: bool)
    ensures
        r == (data@.len() >= 8 && data@.subrange(0, 8) == tag@),
{
    if data.len() < 8 {
        return false;
    }
    let mut i: usize = 0;
    while i < 8
        invariant
            0 <= i <= 8,
            data@.len() >= 8,
            tag@.len() == 8,
            forall|j: int| 0 <= j < i ==> data@[j] == tag@[j],
        decreases 8 - i,
    {
        if data[i] != tag[i] {
            assert(data@.subrange(0, 8)[i as int] != tag@[i as int]);
            return false;
        }
        i += 1;
    }
    assert(data@.subrange(0, 8) =~= tag@);
    true
}

} // verus!
