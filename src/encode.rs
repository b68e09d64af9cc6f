use vstd::prelude::*;
use vstd::arithmetic::div_mod::lemma_div_denominator;
use vstd::arithmetic::power::{lemma_pow0, lemma_pow1, lemma_pow_adds, lemma_pow_positive, pow};

verus! {

/// Number of bytes in a reported result.
pub const RESULT_LEN: usize = 16;

/// Byte `i` of `v` in little-endian order.
pub open spec fn le_byte(v: u128, i: nat) -> u8 {
    ((v as int / pow(256, i)) % 256) as u8
}

/// The 16 little-endian bytes of `v`, least significant first.
pub open spec fn le_bytes(v: u128) -> Seq<u8> {
    Seq::new(16, |i: int| le_byte(v, i as nat))
}

/// Encodes `v` as its 16 little-endian bytes.
pub fn encode_result(v: u128) -> (r: Vec<u8>)
    ensures
        r@ == le_bytes(v),
{
    let mut out: Vec<u8> = Vec::new();
    let mut rest: u128 = v;
    let mut i: usize = 0;
    proof {
        lemma_pow0(256);
    }
    while i < RESULT_LEN
        invariant
            i <= 16,
            out@.len() == i,
            rest as int == v as int / pow(256, i as nat),
            forall|j: int| 0 <= j < i ==> out@[j] == le_byte(v, j as nat),
        decreases 16 - i,
    {
        proof {
            lemma_pow_positive(256, i as nat);
            lemma_div_denominator(v as int, pow(256, i as nat), 256);
            assert(pow(256, (i + 1) as nat) == pow(256, i as nat) * 256) by {
                lemma_pow_adds(256, i as nat, 1);
                lemma_pow1(256);
            }
        }
        out.push((rest % 256) as u8);
        rest = rest / 256;
        i = i + 1;
    }
    assert(out@ =~= le_bytes(v));
    out
}

} // verus!
