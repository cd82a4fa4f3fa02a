use vstd::prelude::*;
use vstd::arithmetic::div_mod::{
    lemma_div_is_ordered_by_denominator, lemma_fundamental_div_mod,
    lemma_fundamental_div_mod_converse, lemma_mod_multiples_vanish, lemma_small_mod,
};

use crate::error::MergeMineError;

verus! {

/// Difficulty attained by a proof-of-work hash.
pub type Difficulty = u64;

/// Two to the power of `n`.
pub open spec fn two_pow(n: nat) -> int
    decreases n,
{
    if n == 0 {
        1
    } else {
        2 * two_pow((n - 1) as nat)
    }
}

/// The largest 256-bit target: all bits set.
pub open spec fn max_target() -> int {
    two_pow(256) - 1
}

/// The base of one 64-bit limb.
pub open spec fn limb_base() -> int {
    0x1_0000_0000_0000_0000
}

/// Two hundred and fifty-six to the power of `n`.
pub open spec fn byte_pow(n: nat) -> int
    decreases n,
{
    if n == 0 {
        1
    } else {
        256 * byte_pow((n - 1) as nat)
    }
}

/// The big-endian value of a byte sequence.
pub open spec fn be_value(s: Seq<u8>) -> int
    decreases s.len(),
{
    if s.len() == 0 {
        0
    } else {
        be_value(s.drop_last()) * 256 + s.last() as int
    }
}

/// The difficulty of a hash whose big-endian value is `scalar`: the low 64 bits of
/// `max_target() / scalar`.
pub open spec fn difficulty_of_scalar(scalar: int) -> int
    recommends
        scalar > 0,
{
    (max_target() / scalar) % limb_base()
}

/// What the difficulty conversion gives for a 32-byte hash.
pub open spec fn to_difficulty_spec(hash: Seq<u8>) -> Result<Difficulty, MergeMineError> {
    if be_value(hash) == 0 {
        Err(MergeMineError::HashingError)
    } else {
        Ok(difficulty_of_scalar(be_value(hash)) as Difficulty)
    }
}

spec fn limbs_value(l0: u64, l1: u64, l2: u64, l3: u64) -> int {
    l0 as int + l1 as int * 0x1_0000_0000_0000_0000 + l2 as int
        * 0x1_0000_0000_0000_0000_0000_0000_0000_0000 + l3 as int
        * 0x1_0000_0000_0000_0000_0000_0000_0000_0000_0000_0000_0000_0000
}

proof fn lemma_be_value_concat(a: Seq<u8>, b: Seq<u8>)
    ensures
        be_value(a + b) == be_value(a) * byte_pow(b.len()) + be_value(b),
    decreases b.len(),
{
    if b.len() == 0 {
        assert(a + b =~= a);
    } else {
        let c = a + b;
        assert(c.drop_last() =~= a + b.drop_last());
        lemma_be_value_concat(a, b.drop_last());
        assert(byte_pow(b.len()) == 256 * byte_pow(b.drop_last().len()));
        assert(be_value(a) * byte_pow(b.len()) == (be_value(a) * byte_pow(b.drop_last().len()))
            * 256) by (nonlinear_arith)
            requires
                byte_pow(b.len()) == 256 * byte_pow(b.drop_last().len()),
        ;
    }
}

proof fn lemma_byte_pow_8()
    ensures
        byte_pow(8) == limb_base(),
{
    reveal_with_fuel(byte_pow, 9);
}

proof fn lemma_two_pow_positive(n: nat)
    ensures
        two_pow(n) >= 1,
    decreases n,
{
    if n > 0 {
        lemma_two_pow_positive((n - 1) as nat);
    }
}

/// Reads eight bytes, most significant first, as one limb.
fn read_limb(hash: &[u8; 32], start: usize) -> (r: u64)
    requires
        start + 8 <= 32,
    ensures
        r as int == be_value(hash@.subrange(start as int, start + 8)),
{
    let mut acc: u64 = 0;
    let mut j: usize = start;
    while j < start + 8
        invariant
            start <= j <= start + 8,
            start + 8 <= 32,
            acc as int == be_value(hash@.subrange(start as int, j as int)),
            acc < byte_pow((j - start) as nat),
        decreases start + 8 - j,
    {
        let ghost prev = hash@.subrange(start as int, j as int);
        let ghost next = hash@.subrange(start as int, j + 1);
        assert(next.drop_last() =~= prev);
        proof {
            assert(byte_pow((j + 1 - start) as nat) == 256 * byte_pow((j - start) as nat));
            lemma_byte_pow_8();
            assert(byte_pow(7) * 256 == byte_pow(8));
            let k = (j - start) as nat;
            assert(k <= 7);
            lemma_byte_pow_monotone(k, 7);
            assert(acc as int * 256 + hash@[j as int] < byte_pow(k + 1)) by (nonlinear_arith)
                requires
                    acc < byte_pow(k),
                    hash@[j as int] < 256,
                    byte_pow(k + 1) == 256 * byte_pow(k),
            ;
        }
        acc = acc * 256 + hash[j] as u64;
        j = j + 1;
    }
    acc
}

proof fn lemma_byte_pow_monotone(k: nat, n: nat)
    requires
        k <= n,
    ensures
        1 <= byte_pow(k) <= byte_pow(n),
    decreases n,
{
    if n > 0 {
        if k == n {
            lemma_byte_pow_monotone((k - 1) as nat, (n - 1) as nat);
        } else {
            lemma_byte_pow_monotone(k, (n - 1) as nat);
        }
    }
}

/// Splits a 32-byte big-endian number into four limbs, least significant first.
fn read_limbs(hash: &[u8; 32]) -> (r: (u64, u64, u64, u64))
    ensures
        limbs_value(r.0, r.1, r.2, r.3) == be_value(hash@),
{
    let l3 = read_limb(hash, 0);
    let l2 = read_limb(hash, 8);
    let l1 = read_limb(hash, 16);
    let l0 = read_limb(hash, 24);
    proof {
        let h = hash@;
        let a = h.subrange(0, 8);
        let b = h.subrange(8, 16);
        let c = h.subrange(16, 24);
        let d = h.subrange(24, 32);
        lemma_byte_pow_8();
        assert(a + b + c + d =~= h);
        lemma_be_value_concat(a, b);
        lemma_be_value_concat(a + b, c);
        lemma_be_value_concat(a + b + c, d);
    }
    (l0, l1, l2, l3)
}

/// Doubles a limb and adds a carry bit: `2 * x + c == r.0 + r.1 * limb_base()`.
fn double_limb(x: u64, c: u64) -> (r: (u64, u64))
    requires
        c <= 1,
    ensures
        r.1 <= 1,
        2 * x as int + c as int == r.0 as int + r.1 as int * limb_base(),
{
    if x >= 0x8000_0000_0000_0000 {
        ((x - 0x8000_0000_0000_0000) * 2 + c, 1)
    } else {
        (x * 2 + c, 0)
    }
}

/// Subtracts `y` and a borrow bit from `x`: `x - y - b == r.0 - r.1 * limb_base()`.
fn sub_limb(x: u64, y: u64, b: u64) -> (r: (u64, u64))
    requires
        b <= 1,
    ensures
        r.1 <= 1,
        x as int - y as int - b as int == r.0 as int - r.1 as int * limb_base(),
{
    if x as u128 >= y as u128 + b as u128 {
        (x - y - b, 0)
    } else {
        ((x as u128 + 0x1_0000_0000_0000_0000 - y as u128 - b as u128) as u64, 1)
    }
}

/// Whether the four limbs `a` hold a value of at least that of `s`.
fn limbs_ge(a: (u64, u64, u64, u64), s: (u64, u64, u64, u64)) -> (r: bool)
    ensures
        r == (limbs_value(a.0, a.1, a.2, a.3) >= limbs_value(s.0, s.1, s.2, s.3)),
{
    if a.3 != s.3 {
        a.3 > s.3
    } else if a.2 != s.2 {
        a.2 > s.2
    } else if a.1 != s.1 {
        a.1 > s.1
    } else {
        a.0 >= s.0
    }
}

/// Converts a proof-of-work hash into a difficulty: the hash is read as a big-endian
/// 256-bit number and the largest 256-bit value is divided by it. A hash of zero has no
/// difficulty and is reported as a hashing failure.
pub fn to_difficulty(hash: &[u8; 32]) -> (r: Result<Difficulty, MergeMineError>)
    ensures
        r == to_difficulty_spec(hash@),
{
    let s = read_limbs(hash);
    let ghost sv = be_value(hash@);
    if s.0 == 0 && s.1 == 0 && s.2 == 0 && s.3 == 0 {
        return Err(MergeMineError::HashingError);
    }
    let mut r: (u64, u64, u64, u64) = (0, 0, 0, 0);
    let mut q: u64 = 0;
    let ghost mut big_q: int = 0;
    let mut i: usize = 0;
    while i < 256
        invariant
            i <= 256,
            sv == limbs_value(s.0, s.1, s.2, s.3),
            sv > 0,
            0 <= big_q,
            0 <= limbs_value(r.0, r.1, r.2, r.3) < sv,
            two_pow(i as nat) - 1 == big_q * sv + limbs_value(r.0, r.1, r.2, r.3),
            q as int == big_q % limb_base(),
        decreases 256 - i,
    {
        let ghost rv = limbs_value(r.0, r.1, r.2, r.3);
        let (n0, c0) = double_limb(r.0, 1);
        let (n1, c1) = double_limb(r.1, c0);
        let (n2, c2) = double_limb(r.2, c1);
        let (n3, c3) = double_limb(r.3, c2);
        let n = (n0, n1, n2, n3);
        assert(2 * rv + 1 == limbs_value(n0, n1, n2, n3) + c3 as int
            * 0x1_0000_0000_0000_0000_0000_0000_0000_0000_0000_0000_0000_0000_0000_0000_0000_0000);
        let bit: u64;
        if c3 == 1 || limbs_ge(n, s) {
            let (z0, b0) = sub_limb(n0, s.0, 0);
            let (z1, b1) = sub_limb(n1, s.1, b0);
            let (z2, b2) = sub_limb(n2, s.2, b1);
            let (z3, _b3) = sub_limb(n3, s.3, b2);
            r = (z0, z1, z2, z3);
            bit = 1;
        } else {
            r = n;
            bit = 0;
        }
        proof {
            let nq = 2 * big_q + bit;
            assert(two_pow((i + 1) as nat) == 2 * two_pow(i as nat));
            assert(nq * sv == 2 * (big_q * sv) + bit * sv) by (nonlinear_arith)
                requires
                    nq == 2 * big_q + bit,
            ;
            lemma_fundamental_div_mod(big_q, limb_base());
            assert(nq == limb_base() * (2 * (big_q / limb_base())) + (2 * q + bit)) by (
            nonlinear_arith)
                requires
                    big_q == limb_base() * (big_q / limb_base()) + big_q % limb_base(),
                    q as int == big_q % limb_base(),
                    nq == 2 * big_q + bit,
            ;
            lemma_mod_multiples_vanish(2 * (big_q / limb_base()), 2 * q + bit, limb_base());
            big_q = nq;
        }
        q = ((q as u128 * 2 + bit as u128) % 0x1_0000_0000_0000_0000) as u64;
        i = i + 1;
    }
    proof {
        lemma_fundamental_div_mod_converse(
            max_target(),
            sv,
            big_q,
            limbs_value(r.0, r.1, r.2, r.3),
        );
    }
    Ok(q)
}

/// A smaller hash never gives a smaller difficulty, as long as the quotient of the
/// smaller hash fits in a difficulty (beyond that only its low 64 bits are kept).
pub proof fn lemma_difficulty_monotone(h1: Seq<u8>, h2: Seq<u8>)
    requires
        0 < be_value(h1) < be_value(h2),
        max_target() / be_value(h1) < limb_base(),
    ensures
        to_difficulty_spec(h1) matches Ok(d1) && to_difficulty_spec(h2) matches Ok(d2) && d1
            >= d2,
{
    lemma_two_pow_positive(256);
    lemma_div_is_ordered_by_denominator(max_target(), be_value(h1), be_value(h2));
    assert(max_target() / be_value(h2) >= 0) by (nonlinear_arith)
        requires
            max_target() >= 0,
            be_value(h2) > 0,
    ;
    lemma_small_mod((max_target() / be_value(h1)) as nat, limb_base() as nat);
    lemma_small_mod((max_target() / be_value(h2)) as nat, limb_base() as nat);
}

/// A hash of all zero bytes is reported as a hashing failure.
pub proof fn lemma_zero_hash_fails(h: Seq<u8>)
    requires
        forall|k: int| 0 <= k < h.len() ==> h[k] == 0,
    ensures
        to_difficulty_spec(h) == Err::<Difficulty, MergeMineError>(MergeMineError::HashingError),
    decreases h.len(),
{
    if h.len() > 0 {
        lemma_zero_hash_fails(h.drop_last());
    }
}

} // verus!
