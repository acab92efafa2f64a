//! Verified byte-level codecs: hexadecimal decoding and encoding, and
//! reading a big-endian 64-bit integer out of a byte sequence.

use vstd::prelude::*;

use crate::text::{push_hex_char, spec_hex_char};

verus! {

/// Whether `c` is a hexadecimal digit, either case.
pub open spec fn spec_is_hex_digit(c: char) -> bool {
    (48 <= c as u32 && c as u32 <= 57)  // '0'..'9'
    || (97 <= c as u32 && c as u32 <= 102)  // 'a'..'f'
    || (65 <= c as u32 && c as u32 <= 70)  // 'A'..'F'
}

/// The value of a hexadecimal digit character.
pub open spec fn spec_hex_val(c: char) -> u8
    recommends
        spec_is_hex_digit(c),
{
    if 48 <= c as u32 && c as u32 <= 57 {
        (c as u32 - 48) as u8
    } else if 97 <= c as u32 && c as u32 <= 102 {
        (c as u32 - 87) as u8
    } else {
        (c as u32 - 55) as u8
    }
}

/// Whether a string is well-formed hexadecimal: even length, every
/// character a digit.
pub open spec fn spec_is_hex(s: Seq<char>) -> bool {
    s.len() % 2 == 0 && (forall|i: int| 0 <= i < s.len() ==> spec_is_hex_digit(#[trigger] s[i]))
}

/// The bytes a well-formed hexadecimal string denotes.
pub open spec fn spec_hex_bytes(s: Seq<char>) -> Seq<u8>
    recommends
        spec_is_hex(s),
{
    Seq::new(s.len() / 2, |i: int| (spec_hex_val(s[2 * i]) * 16 + spec_hex_val(s[2 * i + 1])) as u8)
}

/// The value of one hexadecimal digit character, or `None` when it is not
/// a digit.
fn hex_val(c: char) -> (r: Option<u8>)
    ensures
        r is Some <==> spec_is_hex_digit(c),
        r is Some ==> r->0 == spec_hex_val(c) && r->0 < 16,
{
    let u = c as u32;
    if 48 <= u && u <= 57 {
        Some((u - 48) as u8)
    } else if 97 <= u && u <= 102 {
        Some((u - 87) as u8)
    } else if 65 <= u && u <= 70 {
        Some((u - 55) as u8)
    } else {
        None
    }
}

/// Decode a hexadecimal string: `Some` of the denoted bytes exactly when
/// the string has even length and only digit characters.
pub fn decode_hex(s: &str) -> (r: Option<Vec<u8>>)
    ensures
        r is Some <==> spec_is_hex(s@),
        r is Some ==> r->0@ == spec_hex_bytes(s@),
{
    let len = s.unicode_len();
    if len % 2 != 0 {
        return None;
    }
    let mut out: Vec<u8> = Vec::new();
    let mut i: usize = 0;
    while i < len
        invariant
            len == s@.len(),
            len % 2 == 0,
            i % 2 == 0,
            i <= len,
            forall|j: int| 0 <= j < i ==> spec_is_hex_digit(#[trigger] s@[j]),
            out@.len() == i / 2,
            forall|k: int|
                0 <= k < i / 2 ==> #[trigger] out@[k] == (spec_hex_val(s@[2 * k]) * 16 + spec_hex_val(
                    s@[2 * k + 1],
                )) as u8,
        decreases len - i,
    {
        let hi = match hex_val(s.get_char(i)) {
            Some(v) => v,
            None => {
                return None;
            },
        };
        let lo = match hex_val(s.get_char(i + 1)) {
            Some(v) => v,
            None => {
                return None;
            },
        };
        out.push(hi * 16 + lo);
        i += 2;
    }
    proof {
        assert(out@ =~= spec_hex_bytes(s@));
    }
    Some(out)
}

/// The lower-case hexadecimal rendering of a byte sequence, two digits per
/// byte.
pub open spec fn spec_hex_str(bytes: Seq<u8>) -> Seq<char>
    decreases bytes.len(),
{
    if bytes.len() == 0 {
        Seq::empty()
    } else {
        spec_hex_str(bytes.drop_last()) + seq![
            spec_hex_char(bytes.last() / 16),
            spec_hex_char(bytes.last() % 16),
        ]
    }
}

/// Encode bytes as lower-case hexadecimal.
pub fn encode_hex(bytes: &[u8]) -> (r: String)
    ensures
        r@ == spec_hex_str(bytes@),
{
    let len = bytes.len();
    let mut out = String::new();
    let mut i: usize = 0;
    while i < len
        invariant
            len == bytes@.len(),
            i <= len,
            out@ == spec_hex_str(bytes@.take(i as int)),
        decreases len - i,
    {
        let b = bytes[i];
        push_hex_char(&mut out, b / 16);
        push_hex_char(&mut out, b % 16);
        proof {
            assert(bytes@.take(i + 1).drop_last() =~= bytes@.take(i as int));
            assert(bytes@.take(i + 1).last() == bytes@[i as int]);
            assert(out@ =~= spec_hex_str(bytes@.take(i + 1)));
        }
        i += 1;
    }
    proof {
        assert(bytes@.take(len as int) =~= bytes@);
    }
    out
}

/// Byte-exact equality of two byte vectors.
pub fn bytes_eq(a: &Vec<u8>, b: &Vec<u8>) -> (r: bool)
    ensures
        r == (a@ == b@),
{
    if a.len() != b.len() {
        assert(a@.len() != b@.len());
        return false;
    }
    let n = a.len();
    let mut i: usize = 0;
    while i < n
        invariant
            n == a@.len(),
            n == b@.len(),
            i <= n,
            forall|j: int| 0 <= j < i ==> a@[j] == b@[j],
        decreases n - i,
    {
        if a[i] != b[i] {
            return false;
        }
        i += 1;
    }
    proof {
        assert(a@ =~= b@);
    }
    true
}

/// The first `n` bytes of a vector, as a fresh vector.
#[verifier::loop_isolation(false)]
pub fn vec_take(v: &Vec<u8>, n: usize) -> (r: Vec<u8>)
    requires
        n <= v@.len(),
    ensures
        r@ == v@.take(n as int),
{
    let mut out: Vec<u8> = Vec::new();
    let mut i: usize = 0;
    while i < n
        invariant
            i <= n,
            out@ == v@.take(i as int),
        decreases n - i,
    {
        out.push(v[i]);
        proof {
            assert(out@ =~= v@.take(i + 1));
        }
        i += 1;
    }
    out
}

/// The bytes of a vector from position `n` on, as a fresh vector.
#[verifier::loop_isolation(false)]
pub fn vec_skip(v: &Vec<u8>, n: usize) -> (r: Vec<u8>)
    requires
        n <= v@.len(),
    ensures
        r@ == v@.skip(n as int),
{
    let len = v.len();
    let mut out: Vec<u8> = Vec::new();
    let mut i: usize = n;
    while i < len
        invariant
            n <= i <= len,
            len == v@.len(),
            out@ == v@.subrange(n as int, i as int),
        decreases len - i,
    {
        out.push(v[i]);
        proof {
            assert(out@ =~= v@.subrange(n as int, i + 1));
        }
        i += 1;
    }
    proof {
        assert(v@.subrange(n as int, len as int) =~= v@.skip(n as int));
    }
    out
}

/// The big-endian value of a byte sequence.
pub open spec fn spec_be_val(s: Seq<u8>) -> nat
    decreases s.len(),
{
    if s.len() == 0 {
        0
    } else {
        spec_be_val(s.drop_last()) * 256 + s.last() as nat
    }
}

/// An upper bound for big-endian values: 256 to the length.
pub open spec fn spec_pow256(n: nat) -> nat
    decreases n,
{
    if n == 0 {
        1
    } else {
        256 * spec_pow256((n - 1) as nat)
    }
}

proof fn lemma_be_val_bound(s: Seq<u8>)
    ensures
        spec_be_val(s) < spec_pow256(s.len()),
    decreases s.len(),
{
    if s.len() > 0 {
        lemma_be_val_bound(s.drop_last());
    }
}

/// Read the eight bytes `s[offset .. offset + 8]` as a big-endian 64-bit
/// integer.
pub fn be_u64_at(s: &[u8], offset: usize) -> (r: u64)
    requires
        offset + 8 <= s@.len(),
    ensures
        r as nat == spec_be_val(s@.subrange(offset as int, offset + 8)),
{
    let slen = s.len();
    let mut r: u64 = 0;
    let mut i: usize = 0;
    while i < 8
        invariant
            offset + 8 <= slen,
            slen == s@.len(),
            i <= 8,
            r as nat == spec_be_val(s@.subrange(offset as int, offset + i)),
            (r as nat) < spec_pow256(i as nat),
        decreases 8 - i,
    {
        proof {
            lemma_pow256_eight();
            lemma_be_val_bound(s@.subrange(offset as int, offset + i));
            assert(spec_pow256((i + 1) as nat) <= spec_pow256(8)) by {
                lemma_pow256_increases(i as nat + 1, 8);
            }
        }
        let b = s[offset + i];
        proof {
            assert(s@.subrange(offset as int, offset + i + 1).drop_last() =~= s@.subrange(
                offset as int,
                offset + i,
            ));
            assert(s@.subrange(offset as int, offset + i + 1).last() == s@[offset + i]);
        }
        r = r * 256 + (b as u64);
        i += 1;
    }
    r
}

proof fn lemma_pow256_eight()
    ensures
        spec_pow256(8) == 0x1_0000_0000_0000_0000,
{
    assert(spec_pow256(0) == 1);
    assert(spec_pow256(1) == 0x100);
    assert(spec_pow256(2) == 0x1_0000);
    assert(spec_pow256(3) == 0x100_0000);
    assert(spec_pow256(4) == 0x1_0000_0000);
    assert(spec_pow256(5) == 0x100_0000_0000);
    assert(spec_pow256(6) == 0x1_0000_0000_0000);
    assert(spec_pow256(7) == 0x100_0000_0000_0000);
    assert(spec_pow256(8) == 0x1_0000_0000_0000_0000);
}

proof fn lemma_pow256_increases(a: nat, b: nat)
    requires
        a <= b,
    ensures
        spec_pow256(a) <= spec_pow256(b),
    decreases b,
{
    if a < b {
        lemma_pow256_increases(a, (b - 1) as nat);
    }
}

} // verus!
