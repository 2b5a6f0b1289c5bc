//! 256-bit unsigned integers over four 64-bit limbs, with just the
//! operations the key server needs: comparison, subtraction, big-endian
//! byte conversion, and reduction modulo the secp256k1 group order.

use vstd::prelude::*;
use vstd::arithmetic::div_mod::{lemma_small_mod, lemma_mod_multiples_vanish};

verus! {

/// The order of the secp256k1 group,
/// `0xFFFFFFFFFFFFFFFFFFFFFFFFFFFFFFFEBAAEDCE6AF48A03BBFD25E8CD0364141`,
/// written out limb by limb.
pub open spec fn curve_order_value() -> nat {
    (0xBFD25E8CD0364141 + 0xBAAEDCE6AF48A03B * 0x10000000000000000 + 0xFFFFFFFFFFFFFFFE
        * 0x100000000000000000000000000000000 + 0xFFFFFFFFFFFFFFFF
        * 0x1000000000000000000000000000000000000000000000000) as nat
}

/// A 256-bit unsigned integer, limbs little-endian.
#[derive(Debug, Clone, Copy, PartialEq, Eq, Structural)]
pub struct U256 {
    /// Least significant limb.
    pub l0: u64,
    /// Second limb.
    pub l1: u64,
    /// Third limb.
    pub l2: u64,
    /// Most significant limb.
    pub l3: u64,
}

impl U256 {
    /// The number a `U256` stands for.
    pub open spec fn value(self) -> nat {
        (self.l0 as int + self.l1 as int * 0x10000000000000000 + self.l2 as int
            * 0x100000000000000000000000000000000 + self.l3 as int
            * 0x1000000000000000000000000000000000000000000000000) as nat
    }

    /// Whether the value is zero.
    pub fn is_zero(&self) -> (r: bool)
        ensures
            r == (self.value() == 0),
    {
        self.l0 == 0 && self.l1 == 0 && self.l2 == 0 && self.l3 == 0
    }
}

/// The order of the secp256k1 group, as a `U256`.
pub fn curve_order() -> (r: U256)
    ensures
        r.value() == curve_order_value(),
{
    U256 {
        l0: 0xBFD25E8CD0364141,
        l1: 0xBAAEDCE6AF48A03B,
        l2: 0xFFFFFFFFFFFFFFFE,
        l3: 0xFFFFFFFFFFFFFFFF,
    }
}

/// Compare two 256-bit values.
pub fn u256_lt(a: &U256, b: &U256) -> (r: bool)
    ensures
        r == (a.value() < b.value()),
{
    if a.l3 != b.l3 {
        a.l3 < b.l3
    } else if a.l2 != b.l2 {
        a.l2 < b.l2
    } else if a.l1 != b.l1 {
        a.l1 < b.l1
    } else {
        a.l0 < b.l0
    }
}

/// One limb of a borrowing subtraction.
fn sub_limb(x: u64, y: u64, borrow_in: u64) -> (r: (u64, u64))
    requires
        borrow_in <= 1,
    ensures
        r.1 <= 1,
        r.0 == x - y - borrow_in + r.1 as int * 0x10000000000000000,
{
    let t: u128 = x as u128 + 0x10000000000000000u128 - y as u128 - borrow_in as u128;
    if t >= 0x10000000000000000u128 {
        ((t - 0x10000000000000000u128) as u64, 0)
    } else {
        (t as u64, 1)
    }
}

/// Subtraction of 256-bit values; the caller must know the difference is
/// not negative.
#[verifier::rlimit(60)]
pub fn u256_sub(a: &U256, b: &U256) -> (r: U256)
    requires
        b.value() <= a.value(),
    ensures
        r.value() == a.value() - b.value(),
{
    let (d0, c0) = sub_limb(a.l0, b.l0, 0);
    let (d1, c1) = sub_limb(a.l1, b.l1, c0);
    let (d2, c2) = sub_limb(a.l2, b.l2, c1);
    let (d3, c3) = sub_limb(a.l3, b.l3, c2);
    let r = U256 { l0: d0, l1: d1, l2: d2, l3: d3 };
    proof {
        lemma_sub_chain(*a, *b, r, c0, c1, c2, c3);
        assert(c3 == 0);
    }
    r
}

/// The four borrow-chain equations combine into one equation on the whole
/// 256-bit values.
proof fn lemma_sub_chain(a: U256, b: U256, r: U256, c0: u64, c1: u64, c2: u64, c3: u64)
    requires
        c0 <= 1,
        c1 <= 1,
        c2 <= 1,
        c3 <= 1,
        r.l0 == a.l0 - b.l0 + c0 as int * 0x10000000000000000,
        r.l1 == a.l1 - b.l1 - c0 + c1 as int * 0x10000000000000000,
        r.l2 == a.l2 - b.l2 - c1 + c2 as int * 0x10000000000000000,
        r.l3 == a.l3 - b.l3 - c2 + c3 as int * 0x10000000000000000,
    ensures
        r.value() + b.value() == a.value() + (c3 as int
            * 0x1000000000000000000000000000000000000000000000000) * 0x10000000000000000,
{
    assert(r.l0 + r.l1 as int * 0x10000000000000000 == a.l0 + a.l1 as int * 0x10000000000000000 - (
    b.l0 + b.l1 as int * 0x10000000000000000) + c1 as int * 0x100000000000000000000000000000000);
    assert(r.l0 + r.l1 as int * 0x10000000000000000 + r.l2 as int
        * 0x100000000000000000000000000000000 == a.l0 + a.l1 as int * 0x10000000000000000
        + a.l2 as int * 0x100000000000000000000000000000000 - (b.l0 + b.l1 as int
        * 0x10000000000000000 + b.l2 as int * 0x100000000000000000000000000000000) + c2 as int
        * 0x1000000000000000000000000000000000000000000000000);
    assert(r.l0 + r.l1 as int * 0x10000000000000000 + r.l2 as int
        * 0x100000000000000000000000000000000 + r.l3 as int
        * 0x1000000000000000000000000000000000000000000000000 == a.l0 + a.l1 as int
        * 0x10000000000000000 + a.l2 as int * 0x100000000000000000000000000000000 + a.l3 as int
        * 0x1000000000000000000000000000000000000000000000000 - (b.l0 + b.l1 as int
        * 0x10000000000000000 + b.l2 as int * 0x100000000000000000000000000000000 + b.l3 as int
        * 0x1000000000000000000000000000000000000000000000000) + (c3 as int
        * 0x1000000000000000000000000000000000000000000000000) * 0x10000000000000000);
    assert(r.value() == r.l0 + r.l1 as int * 0x10000000000000000 + r.l2 as int
        * 0x100000000000000000000000000000000 + r.l3 as int
        * 0x1000000000000000000000000000000000000000000000000);
    assert(a.value() == a.l0 + a.l1 as int * 0x10000000000000000 + a.l2 as int
        * 0x100000000000000000000000000000000 + a.l3 as int
        * 0x1000000000000000000000000000000000000000000000000);
    assert(b.value() == b.l0 + b.l1 as int * 0x10000000000000000 + b.l2 as int
        * 0x100000000000000000000000000000000 + b.l3 as int
        * 0x1000000000000000000000000000000000000000000000000);
}

/// Reduce a 256-bit value modulo the group order. Any 256-bit value is
/// below twice the order, so one conditional subtraction reduces it.
pub fn reduce_mod_curve_order(a: &U256) -> (r: U256)
    ensures
        r.value() == a.value() % curve_order_value(),
        r.value() < curve_order_value(),
{
    let order = curve_order();
    if u256_lt(a, &order) {
        proof {
            lemma_small_mod(a.value(), curve_order_value());
        }
        *a
    } else {
        let r = u256_sub(a, &order);
        proof {
            lemma_mod_multiples_vanish(1, a.value() - curve_order_value(),
                curve_order_value() as int);
            lemma_small_mod((a.value() - curve_order_value()) as nat, curve_order_value());
        }
        r
    }
}

/// The number that a big-endian byte string stands for.
pub open spec fn be_val(s: Seq<u8>) -> nat
    decreases s.len(),
{
    if s.len() == 0 {
        0
    } else {
        (be_val(s.drop_last()) * 256 + s.last()) as nat
    }
}

/// The value of an eight-byte string, written out.
pub proof fn lemma_be_val8(s: Seq<u8>)
    requires
        s.len() == 8,
    ensures
        be_val(s) == s[0] as int * 0x100000000000000 + s[1] as int * 0x1000000000000 + s[2] as int
            * 0x10000000000 + s[3] as int * 0x100000000 + s[4] as int * 0x1000000 + s[5] as int
            * 0x10000 + s[6] as int * 0x100 + s[7] as int,
{
    reveal_with_fuel(be_val, 9);
    assert(s.drop_last().drop_last().drop_last().drop_last().drop_last().drop_last().drop_last()
        =~= seq![s[0]]);
}

/// Appending eight bytes shifts the value by one limb.
pub proof fn lemma_be_val_concat8(a: Seq<u8>, b: Seq<u8>)
    requires
        b.len() == 8,
    ensures
        be_val(a + b) == be_val(a) * 0x10000000000000000 + be_val(b),
{
    reveal_with_fuel(be_val, 9);
    lemma_be_val8(b);
    let b7 = b.drop_last();
    let b6 = b7.drop_last();
    let b5 = b6.drop_last();
    let b4 = b5.drop_last();
    let b3 = b4.drop_last();
    let b2 = b3.drop_last();
    let b1 = b2.drop_last();
    assert((a + b).drop_last() =~= a + b7);
    assert((a + b7).drop_last() =~= a + b6);
    assert((a + b6).drop_last() =~= a + b5);
    assert((a + b5).drop_last() =~= a + b4);
    assert((a + b4).drop_last() =~= a + b3);
    assert((a + b3).drop_last() =~= a + b2);
    assert((a + b2).drop_last() =~= a + b1);
    assert((a + b1).drop_last() =~= a);
}

/// One big-endian limb read from eight bytes.
fn limb_from_be(bytes: &[u8], start: usize) -> (r: u64)
    requires
        start + 8 <= bytes@.len(),
    ensures
        r == be_val(bytes@.subrange(start as int, start as int + 8)),
{
    let r: u64 = (bytes[start] as u64) * 0x100000000000000 + (bytes[start + 1] as u64)
        * 0x1000000000000 + (bytes[start + 2] as u64) * 0x10000000000 + (bytes[start + 3] as u64)
        * 0x100000000 + (bytes[start + 4] as u64) * 0x1000000 + (bytes[start + 5] as u64) * 0x10000
        + (bytes[start + 6] as u64) * 0x100 + bytes[start + 7] as u64;
    proof {
        lemma_be_val8(bytes@.subrange(start as int, start as int + 8));
    }
    r
}

/// Read a 256-bit value from 32 big-endian bytes.
pub fn u256_from_be_bytes(bytes: &[u8]) -> (r: U256)
    requires
        bytes@.len() == 32,
    ensures
        r.value() == be_val(bytes@),
{
    let l3 = limb_from_be(bytes, 0);
    let l2 = limb_from_be(bytes, 8);
    let l1 = limb_from_be(bytes, 16);
    let l0 = limb_from_be(bytes, 24);
    proof {
        let s = bytes@;
        assert(s =~= s.subrange(0, 24) + s.subrange(24, 32));
        lemma_be_val_concat8(s.subrange(0, 24), s.subrange(24, 32));
        assert(s.subrange(0, 24) =~= s.subrange(0, 16) + s.subrange(16, 24));
        lemma_be_val_concat8(s.subrange(0, 16), s.subrange(16, 24));
        assert(s.subrange(0, 16) =~= s.subrange(0, 8) + s.subrange(8, 16));
        lemma_be_val_concat8(s.subrange(0, 8), s.subrange(8, 16));
    }
    U256 { l0, l1, l2, l3 }
}

/// The eight big-endian bytes of a 64-bit value.
pub open spec fn be8(x: u64) -> Seq<u8> {
    seq![
        (x as int / 0x100000000000000 % 0x100) as u8,
        (x as int / 0x1000000000000 % 0x100) as u8,
        (x as int / 0x10000000000 % 0x100) as u8,
        (x as int / 0x100000000 % 0x100) as u8,
        (x as int / 0x1000000 % 0x100) as u8,
        (x as int / 0x10000 % 0x100) as u8,
        (x as int / 0x100 % 0x100) as u8,
        (x as int % 0x100) as u8,
    ]
}

/// The eight big-endian bytes of a limb stand for the limb itself.
pub proof fn lemma_be8_val(x: u64)
    ensures
        be_val(be8(x)) == x,
{
    lemma_be_val8(be8(x));
    vstd::arithmetic::div_mod::lemma_div_denominator(x as int, 0x100, 0x100);
    vstd::arithmetic::div_mod::lemma_div_denominator(x as int, 0x10000, 0x100);
    vstd::arithmetic::div_mod::lemma_div_denominator(x as int, 0x1000000, 0x100);
    vstd::arithmetic::div_mod::lemma_div_denominator(x as int, 0x100000000, 0x100);
    vstd::arithmetic::div_mod::lemma_div_denominator(x as int, 0x10000000000, 0x100);
    vstd::arithmetic::div_mod::lemma_div_denominator(x as int, 0x1000000000000, 0x100);
    vstd::arithmetic::div_mod::lemma_div_denominator(x as int, 0x100000000000000, 0x100);
}

/// Append one limb, big-endian, to a byte vector.
fn push_be_limb(out: &mut Vec<u8>, x: u64)
    ensures
        final(out)@ == old(out)@ + be8(x),
{
    out.push((x / 0x100000000000000) as u8);
    out.push(((x / 0x1000000000000) % 0x100) as u8);
    out.push(((x / 0x10000000000) % 0x100) as u8);
    out.push(((x / 0x100000000) % 0x100) as u8);
    out.push(((x / 0x1000000) % 0x100) as u8);
    out.push(((x / 0x10000) % 0x100) as u8);
    out.push(((x / 0x100) % 0x100) as u8);
    out.push((x % 0x100) as u8);
    proof {
        assert(out@ =~= old(out)@ + be8(x));
    }
}

/// Write a 256-bit value as 32 big-endian bytes.
#[verifier::rlimit(100)]
pub fn u256_to_be_bytes(x: &U256) -> (r: Vec<u8>)
    ensures
        r@.len() == 32,
        be_val(r@) == x.value(),
{
    let mut out: Vec<u8> = Vec::with_capacity(32);
    push_be_limb(&mut out, x.l3);
    push_be_limb(&mut out, x.l2);
    push_be_limb(&mut out, x.l1);
    push_be_limb(&mut out, x.l0);
    proof {
        lemma_be8_val(x.l3);
        lemma_be8_val(x.l2);
        lemma_be8_val(x.l1);
        lemma_be8_val(x.l0);
        assert(out@ =~= ((be8(x.l3) + be8(x.l2)) + be8(x.l1)) + be8(x.l0));
        lemma_be_val_concat8(Seq::<u8>::empty() + be8(x.l3), be8(x.l2));
        assert(Seq::<u8>::empty() + be8(x.l3) =~= be8(x.l3));
        lemma_be_val_concat8(be8(x.l3) + be8(x.l2), be8(x.l1));
        lemma_be_val_concat8((be8(x.l3) + be8(x.l2)) + be8(x.l1), be8(x.l0));
    }
    out
}

} // verus!
