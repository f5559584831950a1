//! Little-endian coding of unsigned 64-bit integers.
use vstd::prelude::*;

verus! {

/// The little-endian value of `bytes`.
pub open spec fn le_value(bytes: Seq<u8>) -> nat
    decreases bytes.len(),
{
    if bytes.len() == 0 {
        0
    } else {
        bytes[0] as nat + 256 * le_value(bytes.drop_first())
    }
}

/// The `n` little-endian bytes of `v` (higher bytes dropped).
pub open spec fn le_bytes(v: nat, n: nat) -> Seq<u8>
    decreases n,
{
    if n == 0 {
        Seq::empty()
    } else {
        seq![(v % 256) as u8] + le_bytes(v / 256, (n - 1) as nat)
    }
}

/// `256` to the power `n`.
pub open spec fn pow256(n: nat) -> nat
    decreases n,
{
    if n == 0 {
        1
    } else {
        256 * pow256((n - 1) as nat)
    }
}

/// The value of the first (at most) eight bytes of `bytes`, little-endian.
pub open spec fn spec_le_u64_of(bytes: Seq<u8>) -> u64 {
    le_value(
        if bytes.len() < 8 {
            bytes
        } else {
            bytes.take(8)
        },
    ) as u64
}

/// The eight little-endian bytes of `v`.
pub open spec fn spec_le_u64_bytes(v: u64) -> Seq<u8> {
    le_bytes(v as nat, 8)
}

proof fn lemma_pow256_positive(n: nat)
    ensures
        pow256(n) > 0,
    decreases n,
{
    if n > 0 {
        lemma_pow256_positive((n - 1) as nat);
    }
}

proof fn lemma_pow256_mono(a: nat, b: nat)
    requires
        a <= b,
    ensures
        pow256(a) <= pow256(b),
    decreases b,
{
    if a < b {
        lemma_pow256_mono(a, (b - 1) as nat);
        lemma_pow256_positive((b - 1) as nat);
    }
}

proof fn lemma_pow256_8()
    ensures
        pow256(8) == 0x1_0000_0000_0000_0000,
{
    reveal_with_fuel(pow256, 9);
}

/// A little-endian value is below `256` to the power of its length.
proof fn lemma_le_value_bound(bytes: Seq<u8>)
    ensures
        le_value(bytes) < pow256(bytes.len()),
    decreases bytes.len(),
{
    if bytes.len() > 0 {
        lemma_le_value_bound(bytes.drop_first());
    }
}

/// Reading `n` little-endian bytes of `v` gives `v` modulo `256` to the `n`.
proof fn lemma_le_round_trip(v: nat, n: nat)
    ensures
        le_bytes(v, n).len() == n,
        le_value(le_bytes(v, n)) == v % pow256(n),
    decreases n,
{
    if n > 0 {
        lemma_le_round_trip(v / 256, (n - 1) as nat);
        lemma_pow256_positive((n - 1) as nat);
        let b = le_bytes(v, n);
        assert(b.drop_first() =~= le_bytes(v / 256, (n - 1) as nat));
        vstd::arithmetic::div_mod::lemma_breakdown(v as int, 256, pow256((n - 1) as nat) as int);
    }
}

/// The value of the first (at most) eight bytes of `bytes`, little-endian.
pub fn le_u64_of(bytes: &[u8]) -> (v: u64)
    ensures
        v == spec_le_u64_of(bytes@),
{
    let n: usize = if bytes.len() < 8 {
        bytes.len()
    } else {
        8
    };
    let ghost s = if bytes@.len() < 8 {
        bytes@
    } else {
        bytes@.take(8)
    };
    assert(s =~= bytes@.subrange(0, n as int));
    let mut acc: u128 = 0;
    let mut i: usize = n;
    assert(s.subrange(n as int, n as int) =~= Seq::<u8>::empty());
    while i > 0
        invariant
            i <= n <= 8,
            n <= bytes@.len(),
            s == bytes@.subrange(0, n as int),
            acc == le_value(s.subrange(i as int, n as int)),
        decreases i,
    {
        i = i - 1;
        proof {
            let rest = s.subrange(i + 1, n as int);
            lemma_le_value_bound(rest);
            lemma_pow256_mono(rest.len(), 8);
            lemma_pow256_8();
            assert(s.subrange(i as int, n as int).drop_first() =~= rest);
            assert(s.subrange(i as int, n as int)[0] == bytes@[i as int]);
        }
        acc = acc * 256 + bytes[i] as u128;
    }
    proof {
        assert(s.subrange(0, n as int) =~= s);
        lemma_le_value_bound(s);
        lemma_pow256_mono(s.len(), 8);
        lemma_pow256_8();
    }
    acc as u64
}

/// The eight little-endian bytes of `value`.
pub fn le_u64_bytes(value: u64) -> (bytes: Vec<u8>)
    ensures
        bytes@ == spec_le_u64_bytes(value),
        bytes@.len() == 8,
{
    let mut out: Vec<u8> = Vec::new();
    let mut v: u64 = value;
    let mut i: usize = 0;
    while i < 8
        invariant
            i <= 8,
            out@ + le_bytes(v as nat, (8 - i) as nat) == le_bytes(value as nat, 8),
        decreases 8 - i,
    {
        proof {
            assert(le_bytes(v as nat, (8 - i) as nat) == seq![(v as nat % 256) as u8] + le_bytes(
                (v / 256) as nat,
                (8 - i - 1) as nat,
            ));
        }
        let ghost before = out@;
        out.push((v % 256) as u8);
        proof {
            assert(out@ + le_bytes((v / 256) as nat, (8 - i - 1) as nat) =~= before + le_bytes(
                v as nat,
                (8 - i) as nat,
            ));
        }
        v = v / 256;
        i = i + 1;
    }
    assert(out@ =~= le_bytes(value as nat, 8));
    proof {
        lemma_le_round_trip(value as nat, 8);
    }
    out
}

/// Eight little-endian bytes read back as the value they were written for.
pub proof fn lemma_le_u64_round_trip(v: u64)
    ensures
        spec_le_u64_of(spec_le_u64_bytes(v)) == v,
{
    lemma_le_round_trip(v as nat, 8);
    lemma_pow256_8();
    let b = spec_le_u64_bytes(v);
    assert(b.take(8) =~= b);
}

} // verus!
