//! Little-endian integers and comparisons of byte strings.

use vstd::prelude::*;

verus! {

/// The four bytes of `x`, the least significant one first.
pub open spec fn u32_le(x: u32) -> Seq<u8> {
    seq![
        (x % 256) as u8,
        (x / 256 % 256) as u8,
        (x / 65536 % 256) as u8,
        (x / 16777216) as u8,
    ]
}

/// The number that a byte string denotes, the least significant byte first.
pub open spec fn le_value(s: Seq<u8>) -> nat
    decreases s.len(),
{
    if s.len() == 0 {
        0
    } else {
        s[0] as nat + 256 * le_value(s.drop_first())
    }
}

/// The number whose four bytes stand at `pos`.
pub open spec fn u32_at(s: Seq<u8>, pos: int) -> u32 {
    (s[pos] + 256 * s[pos + 1] + 65536 * s[pos + 2] + 16777216 * s[pos + 3]) as u32
}

/// A number is read back from its bytes.
pub proof fn law_u32_le_round_trip(x: u32, before: Seq<u8>, after: Seq<u8>)
    ensures
        u32_le(x).len() == 4,
        u32_at(before + u32_le(x) + after, before.len() as int) == x,
        le_value(u32_le(x)) == x,
{
    let s = u32_le(x);
    let t = before + s + after;
    let n = before.len() as int;
    let (a, b, c, d) = (x % 256, x / 256 % 256, x / 65536 % 256, x / 16777216);
    assert(x == a + 256 * b + 65536 * c + 16777216 * d && a < 256 && b < 256 && c < 256 && d < 256)
        by (bit_vector)
        requires
            a == x % 256,
            b == x / 256 % 256,
            c == x / 65536 % 256,
            d == x / 16777216,
    ;
    assert(t[n] == a as u8 && t[n + 1] == b as u8 && t[n + 2] == c as u8 && t[n + 3] == d as u8);
    assert(le_value(s) == x) by {
        let s1 = s.drop_first();
        let s2 = s1.drop_first();
        let s3 = s2.drop_first();
        assert(le_value(s3.drop_first()) == 0);
        assert(le_value(s3) == d);
        assert(le_value(s2) == c + 256 * d);
        assert(le_value(s1) == b + 256 * (c + 256 * d));
    }
}

/// Appends the four bytes of `x`.
pub fn push_u32_le(out: &mut Vec<u8>, x: u32)
    ensures
        final(out)@ == old(out)@ + u32_le(x),
{
    out.push((x % 256) as u8);
    out.push((x / 256 % 256) as u8);
    out.push((x / 65536 % 256) as u8);
    out.push((x / 16777216) as u8);
}

/// Reads the number whose four bytes stand at `pos`.
pub fn read_u32_le(bytes: &[u8], pos: usize) -> (x: u32)
    requires
        pos + 4 <= bytes@.len(),
    ensures
        x == u32_at(bytes@, pos as int),
{
    bytes[pos] as u32 + 256 * (bytes[pos + 1] as u32) + 65536 * (bytes[pos + 2] as u32) + 16777216 * (
    bytes[pos + 3] as u32)
}

/// Appends `other`.
pub fn append_bytes(out: &mut Vec<u8>, other: &[u8])
    ensures
        final(out)@ == old(out)@ + other@,
{
    let ghost start = out@;
    for i in 0..other.len()
        invariant
            out@ == start + other@.take(i as int),
    {
        out.push(other[i]);
        assert(other@.take(i + 1) =~= other@.take(i as int).push(other@[i as int]));
    }
    assert(other@.take(other@.len() as int) =~= other@);
}

/// The bytes from `from` up to `to`.
pub fn copy_range(bytes: &[u8], from: usize, to: usize) -> (r: Vec<u8>)
    requires
        from <= to <= bytes@.len(),
    ensures
        r@ == bytes@.subrange(from as int, to as int),
{
    let mut r: Vec<u8> = Vec::new();
    for i in from..to
        invariant
            from <= to <= bytes@.len(),
            r@ == bytes@.subrange(from as int, i as int),
    {
        r.push(bytes[i]);
    }
    r
}

/// The 32 bytes from `pos` on.
pub fn read_32(bytes: &[u8], pos: usize) -> (r: [u8; 32])
    requires
        pos + 32 <= bytes@.len(),
    ensures
        r@ == bytes@.subrange(pos as int, pos + 32),
{
    let mut r: [u8; 32] = [0; 32];
    let len: usize = bytes.len();
    for i in 0..32usize
        invariant
            pos + 32 <= len == bytes@.len(),
            forall|j: int| 0 <= j < i ==> r@[j] == bytes@[pos + j],
    {
        r[i] = bytes[pos + i];
    }
    assert(r@ =~= bytes@.subrange(pos as int, pos + 32));
    r
}

/// Whether two byte strings are the same.
pub fn same_bytes(a: &[u8], b: &[u8]) -> (r: bool)
    ensures
        r == (a@ == b@),
{
    if a.len() != b.len() {
        return false;
    }
    for i in 0..a.len()
        invariant
            a@.len() == b@.len(),
            forall|j: int| 0 <= j < i ==> a@[j] == b@[j],
    {
        if a[i] != b[i] {
            return false;
        }
    }
    assert(a@ =~= b@);
    true
}

/// Whether two texts are the same.
pub fn same_text(a: &str, b: &str) -> (r: bool)
    ensures
        r == (a@ == b@),
{
    proof {
        vstd::utf8::encode_utf8_decode_utf8(a@);
        vstd::utf8::encode_utf8_decode_utf8(b@);
    }
    same_bytes(a.as_bytes(), b.as_bytes())
}

} // verus!
