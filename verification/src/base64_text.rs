//! Padded standard Base64 (RFC 4648) as a specification: encoding, and
//! decoding as its inverse.
use vstd::prelude::*;

verus! {

/// The character of the standard Base64 alphabet for the sextet `v`
/// (`A`-`Z`, `a`-`z`, `0`-`9`, `+`, `/`).
pub open spec fn base64_char(v: int) -> char {
    if v < 26 {
        (65 + v) as char
    } else if v < 52 {
        (97 + v - 26) as char
    } else if v < 62 {
        (48 + v - 52) as char
    } else if v == 62 {
        '+'
    } else {
        '/'
    }
}

/// Padded standard Base64 (RFC 4648, section 4): each group of three bytes
/// becomes four characters; a final group of one or two bytes is padded
/// with `=`.
pub open spec fn base64_encoded(bytes: Seq<u8>) -> Seq<char>
    decreases bytes.len(),
{
    if bytes.len() == 0 {
        seq![]
    } else if bytes.len() == 1 {
        let n = bytes[0] * 65536;
        seq![base64_char(n / 262144), base64_char((n / 4096) % 64), '=', '=']
    } else if bytes.len() == 2 {
        let n = bytes[0] * 65536 + bytes[1] * 256;
        seq![base64_char(n / 262144), base64_char((n / 4096) % 64), base64_char((n / 64) % 64), '=']
    } else {
        let n = bytes[0] * 65536 + bytes[1] * 256 + bytes[2];
        seq![
            base64_char(n / 262144),
            base64_char((n / 4096) % 64),
            base64_char((n / 64) % 64),
            base64_char(n % 64),
        ] + base64_encoded(bytes.skip(3))
    }
}

/// The bytes whose padded standard Base64 encoding is `text`, or `None`
/// where `text` is not such an encoding.
pub open spec fn base64_decoded(text: Seq<char>) -> Option<Seq<u8>> {
    if exists|b: Seq<u8>| base64_encoded(b) == text {
        Some(choose|b: Seq<u8>| base64_encoded(b) == text)
    } else {
        None
    }
}

proof fn lemma_group3(a0: u8, a1: u8, a2: u8, b0: u8, b1: u8, b2: u8)
    by (bit_vector)
    requires
        (a0 * 65536 + a1 * 256 + a2) / 262144 == (b0 * 65536 + b1 * 256 + b2) / 262144,
        ((a0 * 65536 + a1 * 256 + a2) / 4096) % 64 == ((b0 * 65536 + b1 * 256 + b2) / 4096) % 64,
        ((a0 * 65536 + a1 * 256 + a2) / 64) % 64 == ((b0 * 65536 + b1 * 256 + b2) / 64) % 64,
        (a0 * 65536 + a1 * 256 + a2) % 64 == (b0 * 65536 + b1 * 256 + b2) % 64,
    ensures
        a0 == b0 && a1 == b1 && a2 == b2,
{
}

proof fn lemma_group2(a0: u8, a1: u8, b0: u8, b1: u8)
    by (bit_vector)
    requires
        (a0 * 65536 + a1 * 256) / 262144 == (b0 * 65536 + b1 * 256) / 262144,
        ((a0 * 65536 + a1 * 256) / 4096) % 64 == ((b0 * 65536 + b1 * 256) / 4096) % 64,
        ((a0 * 65536 + a1 * 256) / 64) % 64 == ((b0 * 65536 + b1 * 256) / 64) % 64,
    ensures
        a0 == b0 && a1 == b1,
{
}

proof fn lemma_group1(a0: u8, b0: u8)
    by (bit_vector)
    requires
        (a0 * 65536) / 262144 == (b0 * 65536) / 262144,
        ((a0 * 65536) / 4096) % 64 == ((b0 * 65536) / 4096) % 64,
    ensures
        a0 == b0,
{
}

/// Different bytes have different encodings.
pub proof fn lemma_base64_injective(a: Seq<u8>, b: Seq<u8>)
    requires
        base64_encoded(a) == base64_encoded(b),
    ensures
        a == b,
    decreases a.len(),
{
    let e = base64_encoded(a);
    if a.len() == 0 || b.len() == 0 {
        if a.len() != 0 || b.len() != 0 {
            assert(base64_encoded(a).len() != base64_encoded(b).len());
        }
        assert(a =~= b);
        return;
    }
    let a0 = a[0];
    let a1 = if a.len() > 1 { a[1] } else { 0u8 };
    let a2 = if a.len() > 2 { a[2] } else { 0u8 };
    let b0 = b[0];
    let b1 = if b.len() > 1 { b[1] } else { 0u8 };
    let b2 = if b.len() > 2 { b[2] } else { 0u8 };
    // The padding tells how many bytes the first group holds.
    assert((a.len() == 1) == (b.len() == 1)) by {
        assert(e[3] == base64_encoded(b)[3]);
        assert(e[2] == base64_encoded(b)[2]);
    }
    assert((a.len() == 2) == (b.len() == 2)) by {
        assert(e[3] == base64_encoded(b)[3]);
        assert(e[2] == base64_encoded(b)[2]);
    }
    assert(e[0] == base64_encoded(b)[0]);
    assert(e[1] == base64_encoded(b)[1]);
    if a.len() == 1 {
        lemma_group1(a0, b0);
        assert(a =~= b);
    } else if a.len() == 2 {
        assert(e[2] == base64_encoded(b)[2]);
        lemma_group2(a0, a1, b0, b1);
        assert(a =~= b);
    } else {
        assert(e[2] == base64_encoded(b)[2]);
        assert(e[3] == base64_encoded(b)[3]);
        lemma_group3(a0, a1, a2, b0, b1, b2);
        assert(e.skip(4) =~= base64_encoded(a.skip(3)));
        assert(base64_encoded(b).skip(4) =~= base64_encoded(b.skip(3)));
        lemma_base64_injective(a.skip(3), b.skip(3));
        assert(a =~= b) by {
            assert forall|i: int| 0 <= i < a.len() implies a[i] == b[i] by {
                if i >= 3 {
                    assert(a[i] == a.skip(3)[i - 3]);
                    assert(b[i] == b.skip(3)[i - 3]);
                }
            }
        }
    }
}

/// Decoding an encoding gives back the encoded bytes.
pub proof fn lemma_base64_round_trip(b: Seq<u8>)
    ensures
        base64_decoded(base64_encoded(b)) == Some(b),
{
    let t = base64_encoded(b);
    assert(exists|x: Seq<u8>| base64_encoded(x) == t);
    let c = choose|x: Seq<u8>| base64_encoded(x) == t;
    lemma_base64_injective(c, b);
}

} // verus!
