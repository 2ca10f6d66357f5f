//! Identifiers for rows of the store.
//!
//! A `Uuid` is the 128-bit value that the canonical lowercase hyphenated
//! text form (8-4-4-4-12 hex groups) denotes.  Parsing that form is
//! specified here exactly: `parse_uuid` succeeds precisely on canonical
//! text, and the value it returns is the number the hex digits spell.

use vstd::prelude::*;

verus! {

use vstd::string::StringSliceAdditionalSpecFns;

#[derive(Debug, Clone, Copy, PartialEq, Eq, Structural, Hash)]
pub struct Uuid {
    pub value: u128,
}

impl Uuid {
    pub fn new(value: u128) -> (r: Uuid)
        ensures
            r.value == value,
    {
        Uuid { value }
    }
}

/// The positions of the four hyphens in canonical text.
pub open spec fn dash_at(i: int) -> bool {
    i == 8 || i == 13 || i == 18 || i == 23
}

/// A lowercase hexadecimal digit, as a byte.
pub open spec fn is_lower_hex(b: u8) -> bool {
    (0x30 <= b <= 0x39) || (0x61 <= b <= 0x66)
}

/// The numeric value of a lowercase hexadecimal digit.
pub open spec fn hex_nibble(b: u8) -> int {
    if 0x30 <= b <= 0x39 {
        b - 0x30
    } else {
        b - 0x61 + 10
    }
}

/// Canonical UUID text: 36 bytes, hyphens exactly at positions 8, 13, 18
/// and 23, lowercase hex digits everywhere else.
pub open spec fn is_canonical_uuid(s: Seq<u8>) -> bool {
    &&& s.len() == 36
    &&& forall|i: int|
        0 <= i < 36 ==> (if dash_at(i) {
            s[i] == 0x2d
        } else {
            is_lower_hex(#[trigger] s[i])
        })
}

/// The hex digits among the first `n` bytes, hyphens removed, in order.
pub open spec fn digits_of(s: Seq<u8>, n: int) -> Seq<u8>
    decreases n,
{
    if n <= 0 {
        Seq::empty()
    } else if s[n - 1] == 0x2d {
        digits_of(s, n - 1)
    } else {
        digits_of(s, n - 1).push(s[n - 1])
    }
}

/// The number a big-endian sequence of hex digits spells.
pub open spec fn hex_value(d: Seq<u8>) -> int
    decreases d.len(),
{
    if d.len() == 0 {
        0
    } else {
        hex_value(d.drop_last()) * 16 + hex_nibble(d.last())
    }
}

/// The number denoted by canonical UUID text.
pub open spec fn uuid_value(s: Seq<u8>) -> int {
    hex_value(digits_of(s, 36))
}

pub open spec fn pow16(n: int) -> int
    decreases n,
{
    if n <= 0 {
        1
    } else {
        16 * pow16(n - 1)
    }
}

proof fn lemma_pow16_pos(n: int)
    ensures
        pow16(n) >= 1,
    decreases n,
{
    if n > 0 {
        lemma_pow16_pos(n - 1);
    }
}

proof fn lemma_pow16_monotone(a: int, b: int)
    requires
        0 <= a <= b,
    ensures
        pow16(a) <= pow16(b),
    decreases b,
{
    if a < b {
        lemma_pow16_monotone(a, b - 1);
        lemma_pow16_pos(b - 1);
    }
}

/// Parses the canonical lowercase hyphenated form from raw bytes.
pub fn parse_uuid_bytes(b: &[u8]) -> (r: Option<Uuid>)
    ensures
        r is Some <==> is_canonical_uuid(b@),
        r matches Some(u) ==> u.value == uuid_value(b@),
{
    if b.len() != 36 {
        return None;
    }
    let mut acc: u128 = 0;
    let mut digits: usize = 0;
    let mut i: usize = 0;
    while i < 36
        invariant
            b@.len() == 36,
            0 <= i <= 36,
            forall|j: int|
                0 <= j < i ==> (if dash_at(j) {
                    b@[j] == 0x2d
                } else {
                    is_lower_hex(#[trigger] b@[j])
                }),
            digits == i - (if i > 8 {
                1int
            } else {
                0int
            }) - (if i > 13 {
                1int
            } else {
                0int
            }) - (if i > 18 {
                1int
            } else {
                0int
            }) - (if i > 23 {
                1int
            } else {
                0int
            }),
            acc == hex_value(digits_of(b@, i as int)),
            acc < pow16(digits as int),
        decreases 36 - i,
    {
        let c = b[i];
        if i == 8 || i == 13 || i == 18 || i == 23 {
            if c != 0x2d {
                return None;
            }
            assert(digits_of(b@, i + 1) =~= digits_of(b@, i as int));
        } else {
            let nib: u128 = if 0x30 <= c && c <= 0x39 {
                (c - 0x30) as u128
            } else if 0x61 <= c && c <= 0x66 {
                (c - 0x61 + 10) as u128
            } else {
                return None;
            };
            proof {
                assert(digits <= 31);
                lemma_pow16_monotone(digits as int + 1, 32);
                reveal_with_fuel(pow16, 33);
                assert(pow16(32) == 0x100000000000000000000000000000000);
                let d0 = digits_of(b@, i as int);
                assert(digits_of(b@, i + 1) =~= d0.push(b@[i as int]));
                assert(d0.push(b@[i as int]).drop_last() =~= d0);
            }
            acc = acc * 16 + nib;
            digits = digits + 1;
        }
        i = i + 1;
    }
    Some(Uuid { value: acc })
}

/// The number a big-endian byte sequence spells.
pub open spec fn bytes_value(s: Seq<u8>) -> int
    decreases s.len(),
{
    if s.len() == 0 {
        0
    } else {
        bytes_value(s.drop_last()) * 256 + s.last()
    }
}

/// Decodes the 16-byte wire form, as a row or a message carries it:
/// anything but exactly 16 bytes is refused.
pub fn uuid_from_bytes(b: &[u8]) -> (r: Option<Uuid>)
    ensures
        r is Some <==> b@.len() == 16,
        r matches Some(u) ==> u.value == bytes_value(b@),
{
    if b.len() != 16 {
        return None;
    }
    let mut acc: u128 = 0;
    let mut i: usize = 0;
    while i < 16
        invariant
            b@.len() == 16,
            0 <= i <= 16,
            acc == bytes_value(b@.subrange(0, i as int)),
            acc < pow16(2 * i),
        decreases 16 - i,
    {
        proof {
            reveal_with_fuel(pow16, 33);
            assert(b@.subrange(0, i + 1) =~= b@.subrange(0, i as int).push(b@[i as int]));
            assert(b@.subrange(0, i as int).push(b@[i as int]).drop_last() =~= b@.subrange(
                0,
                i as int,
            ));
        }
        acc = acc * 256 + (b[i] as u128);
        i = i + 1;
    }
    proof {
        assert(b@.subrange(0, 16) =~= b@);
    }
    Some(Uuid { value: acc })
}

/// Encodes the 16-byte wire form, big-endian: the exact inverse of
/// `uuid_from_bytes`.
pub fn uuid_to_bytes(u: &Uuid) -> (r: Vec<u8>)
    ensures
        r@.len() == 16,
        bytes_value(r@) == u.value,
{
    let mut r: Vec<u8> = Vec::new();
    let mut v: u128 = u.value;
    let mut p: u128 = 0x1000000000000000000000000000000;
    proof {
        reveal_with_fuel(pow16, 33);
        assert(p as int == pow16(30));
        assert(v < pow16(32));
    }
    let mut i: usize = 0;
    while i < 16
        invariant
            0 <= i <= 16,
            r@.len() == i,
            i < 16 ==> p as int == pow16(2 * (15 - i)),
            v < pow16(2 * (16 - i)),
            bytes_value(r@) * pow16(2 * (16 - i)) + v == u.value,
        decreases 16 - i,
    {
        let ghost bv = bytes_value(r@);
        let ghost prev = r@;
        let ghost v0 = v as int;
        let ghost pp = p as int;
        proof {
            lemma_pow16_pos(2 * (15 - i));
            assert(pow16(2 * (16 - i)) == 16 * pow16(2 * (16 - i) - 1));
            assert(pow16(2 * (16 - i) - 1) == 16 * pow16(2 * (15 - i)));
            vstd::arithmetic::mul::lemma_mul_is_commutative(256, pp);
            vstd::arithmetic::div_mod::lemma_multiply_divide_lt(v0, pp, 256);
        }
        let b = (v / p) as u8;
        r.push(b);
        v = v % p;
        proof {
            assert(r@.drop_last() =~= prev);
            assert(bytes_value(r@) == bv * 256 + b);
            assert(b == v0 / pp);
            vstd::arithmetic::div_mod::lemma_fundamental_div_mod(v0, pp);
            assert(v as int == v0 % pp);
            assert((bv * 256 + b) * pow16(2 * (15 - i)) + (v0 % pp) == bv * pow16(2 * (16 - i))
                + v0) by (nonlinear_arith)
                requires
                    pow16(2 * (16 - i)) == 256 * pow16(2 * (15 - i)),
                    pp == pow16(2 * (15 - i)),
                    b == v0 / pp,
                    v0 == pp * (v0 / pp) + (v0 % pp),
            ;
        }
        if i < 15 {
            proof {
                assert(pow16(2 * (15 - i)) == 16 * pow16(2 * (15 - i) - 1));
                assert(pow16(2 * (15 - i) - 1) == 16 * pow16(2 * (14 - i)));
                assert(pow16(2 * (15 - i)) == 256 * pow16(2 * (14 - i)));
                lemma_pow16_pos(2 * (14 - i));
                vstd::arithmetic::div_mod::lemma_div_multiples_vanish(pow16(2 * (14 - i)), 256);
            }
            p = p / 256;
        }
        i = i + 1;
    }
    r
}

/// Parses the canonical lowercase hyphenated form of a UUID.
pub fn parse_uuid(s: &str) -> (r: Option<Uuid>)
    ensures
        r is Some <==> is_canonical_uuid(s.spec_bytes()),
        r matches Some(u) ==> u.value == uuid_value(s.spec_bytes()),
{
    parse_uuid_bytes(s.as_bytes())
}

} // verus!
