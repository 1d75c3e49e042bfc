//! Big-endian byte encoding of unsigned 64-bit integers.
//!
//! Precompile call data and reserved precompile addresses both carry 64-bit
//! quantities as 8-byte big-endian fields; this module gives that encoding a
//! mathematical definition and verified encode/decode functions.

use vstd::prelude::*;
use vstd::arithmetic::div_mod::{
    lemma_basic_div, lemma_div_denominator, lemma_div_multiples_vanish,
    lemma_fundamental_div_mod,
};

verus! {

/// 256 raised to the power `n`: the number of values of an `n`-byte field.
pub open spec fn pow256(n: nat) -> nat
    decreases n,
{
    if n == 0 {
        1
    } else {
        256 * pow256((n - 1) as nat)
    }
}

/// The value of a byte sequence read as a big-endian unsigned integer.
pub open spec fn be_value(s: Seq<u8>) -> nat
    decreases s.len(),
{
    if s.len() == 0 {
        0
    } else {
        (s.first() as nat) * pow256((s.len() - 1) as nat) + be_value(s.drop_first())
    }
}

pub proof fn lemma_pow256_pos(n: nat)
    ensures
        pow256(n) >= 1,
    decreases n,
{
    if n > 0 {
        lemma_pow256_pos((n - 1) as nat);
    }
}

pub proof fn lemma_pow256_increases(i: nat, j: nat)
    requires
        i <= j,
    ensures
        pow256(i) <= pow256(j),
    decreases j,
{
    if i < j {
        lemma_pow256_increases(i, (j - 1) as nat);
        lemma_pow256_pos((j - 1) as nat);
    }
}

/// Appending a byte multiplies the value by 256 and adds the byte.
pub proof fn lemma_be_value_push(s: Seq<u8>, b: u8)
    ensures
        be_value(s.push(b)) == 256 * be_value(s) + b,
    decreases s.len(),
{
    if s.len() == 0 {
        assert(s.push(b).drop_first() =~= Seq::<u8>::empty());
        assert(s.push(b).first() == b);
        assert(pow256(0) == 1);
        assert(be_value(Seq::<u8>::empty()) == 0);
        assert(be_value(s) == 0);
        assert(be_value(s.push(b)) == (b as nat) * pow256(0) + be_value(Seq::<u8>::empty()));
        assert(be_value(s.push(b)) == 256 * be_value(s) + b);
    } else {
        assert(s.push(b).drop_first() =~= s.drop_first().push(b));
        lemma_be_value_push(s.drop_first(), b);
        assert(s.push(b).first() == s.first());
        assert(s.push(b).len() - 1 == s.len());
        assert(be_value(s.push(b)) == (s.first() as nat) * pow256(s.len()) + 256 * be_value(
            s.drop_first(),
        ) + b);
        assert((s.first() as nat) * pow256(s.len()) == 256 * ((s.first() as nat) * pow256(
            (s.len() - 1) as nat,
        ))) by (nonlinear_arith)
            requires
                pow256(s.len()) == 256 * pow256((s.len() - 1) as nat),
        ;
        assert(be_value(s) == (s.first() as nat) * pow256((s.len() - 1) as nat) + be_value(
            s.drop_first(),
        ));
        assert(be_value(s.push(b)) == 256 * be_value(s) + b);
    }
}

/// Reads the 8 bytes of `bytes` starting at `start` as a big-endian integer.
pub fn be_u64_at(bytes: &[u8], start: usize) -> (r: u64)
    requires
        start + 8 <= bytes@.len(),
    ensures
        r == be_value(bytes@.subrange(start as int, start as int + 8)),
{
    let ghost full = bytes@.subrange(start as int, start as int + 8);
    let len: usize = bytes.len();
    let mut acc: u64 = 0;
    let mut i: usize = 0;
    while i < 8
        invariant
            start + 8 <= len,
            len == bytes@.len(),
            i <= 8,
            full == bytes@.subrange(start as int, start as int + 8),
            acc == be_value(full.take(i as int)),
            acc < pow256(i as nat),
        decreases 8 - i,
    {
        let b = bytes[start + i];
        proof {
            let prefix = full.take(i as int);
            assert(full.take(i as int + 1) =~= prefix.push(full[i as int]));
            assert(full[i as int] == bytes@[start as int + i as int]);
            lemma_be_value_push(prefix, b);
            lemma_pow256_increases(i as nat, 7);
            assert(pow256(7) == 72057594037927936) by {
                reveal_with_fuel(pow256, 8);
            }
        }
        acc = acc * 256 + (b as u64);
        i = i + 1;
    }
    proof {
        assert(full.take(8) =~= full);
    }
    acc
}

/// Writes `v` as its 8-byte big-endian encoding.
pub fn u64_to_be_bytes(v: u64) -> (r: Vec<u8>)
    ensures
        r@.len() == 8,
        be_value(r@) == v,
{
    let mut out: Vec<u8> = Vec::new();
    let mut div: u64 = 72057594037927936;
    proof {
        assert(pow256(7) == 72057594037927936 && pow256(8) == 18446744073709551616) by {
            reveal_with_fuel(pow256, 9);
        }
        lemma_basic_div(v as int, pow256(8) as int);
    }
    let mut i: usize = 0;
    while i < 8
        invariant
            i <= 8,
            out@.len() == i,
            i < 8 ==> div == pow256((7 - i) as nat),
            be_value(out@) == v as nat / pow256((8 - i) as nat),
        decreases 8 - i,
    {
        proof {
            lemma_pow256_pos((7 - i) as nat);
        }
        let d: u64 = (v / div) % 256;
        proof {
            let p = pow256((7 - i) as nat) as int;
            lemma_be_value_push(out@, d as u8);
            // v / p, split into its top part and its last base-256 digit
            lemma_fundamental_div_mod(v as int / p, 256);
            // (v / p) / 256 == v / (p * 256), and p * 256 == pow256(8 - i)
            lemma_div_denominator(v as int, p, 256);
            assert(p * 256 == pow256((8 - i) as nat));
        }
        out.push(d as u8);
        if i < 7 {
            proof {
                lemma_pow256_pos((6 - i) as nat);
                lemma_div_multiples_vanish(pow256((6 - i) as nat) as int, 256);
            }
            div = div / 256;
        }
        i = i + 1;
    }
    proof {
        lemma_fundamental_div_mod(v as int, 1);
    }
    out
}

} // verus!
