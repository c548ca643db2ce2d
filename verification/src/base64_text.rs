//! Padded standard Base64 (RFC 4648, section 4): the text of some bytes,
//! and the bytes of a text, with the facts that signing and checking need.

use vstd::prelude::*;

verus! {

/// The character of the standard alphabet for the 6-bit value `v`.
pub open spec fn sextet_char(v: u8) -> char {
    if v < 26 {
        (v + 65) as char
    } else if v < 52 {
        (v + 71) as char
    } else if v < 62 {
        (v - 4) as char
    } else if v == 62 {
        '+'
    } else {
        '/'
    }
}

/// The padded standard Base64 text of `bytes`: each group of three bytes
/// becomes four characters; a last group of one or two bytes becomes two
/// or three characters and `=` padding up to four.
pub open spec fn base64_standard_encode(bytes: Seq<u8>) -> Seq<char>
    decreases bytes.len(),
{
    if bytes.len() == 0 {
        Seq::empty()
    } else if bytes.len() == 1 {
        seq![sextet_char(bytes[0] >> 2), sextet_char((bytes[0] & 3) << 4), '=', '=']
    } else if bytes.len() == 2 {
        seq![
            sextet_char(bytes[0] >> 2),
            sextet_char(((bytes[0] & 3) << 4) | (bytes[1] >> 4)),
            sextet_char((bytes[1] & 15) << 2),
            '=',
        ]
    } else {
        seq![
            sextet_char(bytes[0] >> 2),
            sextet_char(((bytes[0] & 3) << 4) | (bytes[1] >> 4)),
            sextet_char(((bytes[1] & 15) << 2) | (bytes[2] >> 6)),
            sextet_char(bytes[2] & 63),
        ] + base64_standard_encode(bytes.skip(3))
    }
}

/// The bytes whose padded standard Base64 text is `text`; `None` where
/// `text` is the text of no bytes.
pub open spec fn base64_standard_decode(text: Seq<char>) -> Option<Seq<u8>> {
    if exists|b: Seq<u8>| #[trigger] base64_standard_encode(b) == text {
        Some(choose|b: Seq<u8>| #[trigger] base64_standard_encode(b) == text)
    } else {
        None
    }
}

proof fn lemma_sextet_char(v: u8, w: u8)
    requires
        v < 64,
        w < 64,
    ensures
        sextet_char(v) != '=',
        sextet_char(v) == sextet_char(w) ==> v == w,
{
}

proof fn lemma_sextets(a: u8, b: u8, c: u8)
    ensures
        a >> 2 < 64,
        ((a & 3) << 4) < 64,
        (((a & 3) << 4) | (b >> 4)) < 64,
        ((b & 15) << 2) < 64,
        (((b & 15) << 2) | (c >> 6)) < 64,
        (c & 63) < 64,
{
    assert(a >> 2 < 64) by (bit_vector);
    assert(((a & 3) << 4) < 64) by (bit_vector);
    assert((((a & 3) << 4) | (b >> 4)) < 64) by (bit_vector);
    assert(((b & 15) << 2) < 64) by (bit_vector);
    assert((((b & 15) << 2) | (c >> 6)) < 64) by (bit_vector);
    assert((c & 63) < 64) by (bit_vector);
}

proof fn lemma_group_bytes(a0: u8, a1: u8, a2: u8, b0: u8, b1: u8, b2: u8)
    ensures
        (a0 >> 2) == (b0 >> 2) && ((a0 & 3) << 4) == ((b0 & 3) << 4) ==> a0 == b0,
        (a0 >> 2) == (b0 >> 2) && (((a0 & 3) << 4) | (a1 >> 4)) == (((b0 & 3) << 4) | (b1 >> 4))
            && ((a1 & 15) << 2) == ((b1 & 15) << 2) ==> a0 == b0 && a1 == b1,
        (a0 >> 2) == (b0 >> 2) && (((a0 & 3) << 4) | (a1 >> 4)) == (((b0 & 3) << 4) | (b1 >> 4))
            && (((a1 & 15) << 2) | (a2 >> 6)) == (((b1 & 15) << 2) | (b2 >> 6)) && (a2 & 63) == (b2
            & 63) ==> a0 == b0 && a1 == b1 && a2 == b2,
{
    assert((a0 >> 2) == (b0 >> 2) && ((a0 & 3) << 4) == ((b0 & 3) << 4) ==> a0 == b0) by (bit_vector);
    assert((a0 >> 2) == (b0 >> 2) && (((a0 & 3) << 4) | (a1 >> 4)) == (((b0 & 3) << 4) | (b1 >> 4))
        && ((a1 & 15) << 2) == ((b1 & 15) << 2) ==> a0 == b0 && a1 == b1) by (bit_vector);
    assert((a0 >> 2) == (b0 >> 2) && (((a0 & 3) << 4) | (a1 >> 4)) == (((b0 & 3) << 4) | (b1 >> 4))
        && (((a1 & 15) << 2) | (a2 >> 6)) == (((b1 & 15) << 2) | (b2 >> 6)) && (a2 & 63) == (b2
        & 63) ==> a0 == b0 && a1 == b1 && a2 == b2) by (bit_vector);
}

/// The text of `n` bytes has `4 * ceil(n / 3)` characters.
pub proof fn lemma_encode_len(bytes: Seq<u8>)
    ensures
        base64_standard_encode(bytes).len() == 4 * ((bytes.len() + 2) / 3),
    decreases bytes.len(),
{
    if bytes.len() >= 3 {
        lemma_encode_len(bytes.skip(3));
    }
}

/// The text of a number of bytes that leaves one over after groups of
/// three ends in two `=`.
pub proof fn lemma_encode_two_pads(bytes: Seq<u8>)
    requires
        bytes.len() % 3 == 1,
    ensures
        ({
            let text = base64_standard_encode(bytes);
            &&& text.len() >= 4
            &&& text[text.len() - 1] == '='
            &&& text[text.len() - 2] == '='
        }),
    decreases bytes.len(),
{
    lemma_encode_len(bytes);
    if bytes.len() >= 3 {
        lemma_encode_two_pads(bytes.skip(3));
    }
}

/// The first four characters of the text of non-empty `bytes`: the third is
/// `=` exactly for one byte, the fourth exactly for one or two, and the
/// others are characters of the alphabet.
proof fn lemma_first_group(bytes: Seq<u8>)
    requires
        bytes.len() > 0,
    ensures
        base64_standard_encode(bytes).len() >= 4,
        base64_standard_encode(bytes)[2] == '=' <==> bytes.len() == 1,
        base64_standard_encode(bytes)[3] == '=' <==> bytes.len() <= 2,
{
    lemma_encode_len(bytes);
    let b1 = if bytes.len() > 1 { bytes[1] } else { 0u8 };
    let b2 = if bytes.len() > 2 { bytes[2] } else { 0u8 };
    lemma_sextets(bytes[0], b1, b2);
    lemma_sextet_char(((b1 & 15) << 2) | (b2 >> 6), 0);
    lemma_sextet_char((b1 & 15) << 2, 0);
    lemma_sextet_char(b2 & 63, 0);
}

/// No two byte sequences have the same text.
pub proof fn lemma_encode_injective(a: Seq<u8>, b: Seq<u8>)
    requires
        base64_standard_encode(a) == base64_standard_encode(b),
    ensures
        a == b,
    decreases a.len(),
{
    lemma_encode_len(a);
    lemma_encode_len(b);
    if a.len() == 0 {
        assert(a =~= b);
        return;
    }
    lemma_first_group(a);
    lemma_first_group(b);
    let ta = base64_standard_encode(a);
    let tb = base64_standard_encode(b);
    assert(ta[2] == tb[2] && ta[3] == tb[3]);
    let a1 = if a.len() > 1 { a[1] } else { 0u8 };
    let a2 = if a.len() > 2 { a[2] } else { 0u8 };
    let b1 = if b.len() > 1 { b[1] } else { 0u8 };
    let b2 = if b.len() > 2 { b[2] } else { 0u8 };
    lemma_sextets(a[0], a1, a2);
    lemma_sextets(b[0], b1, b2);
    lemma_group_bytes(a[0], a1, a2, b[0], b1, b2);
    lemma_sextet_char(a[0] >> 2, b[0] >> 2);
    assert(ta[0] == tb[0] && ta[1] == tb[1]);
    if a.len() == 1 {
        lemma_sextet_char((a[0] & 3) << 4, (b[0] & 3) << 4);
        assert(a =~= b);
    } else if a.len() == 2 {
        lemma_sextet_char(((a[0] & 3) << 4) | (a1 >> 4), ((b[0] & 3) << 4) | (b1 >> 4));
        lemma_sextet_char((a1 & 15) << 2, (b1 & 15) << 2);
        assert(a =~= b);
    } else {
        lemma_sextet_char(((a[0] & 3) << 4) | (a1 >> 4), ((b[0] & 3) << 4) | (b1 >> 4));
        lemma_sextet_char(((a1 & 15) << 2) | (a2 >> 6), ((b1 & 15) << 2) | (b2 >> 6));
        lemma_sextet_char(a2 & 63, b2 & 63);
        let ra = base64_standard_encode(a.skip(3));
        let rb = base64_standard_encode(b.skip(3));
        assert(ta.skip(4) =~= ra);
        assert(tb.skip(4) =~= rb);
        lemma_encode_injective(a.skip(3), b.skip(3));
        assert forall|i: int| 0 <= i < a.len() implies a[i] == b[i] by {
            if i >= 3 {
                assert(a.skip(3)[i - 3] == b.skip(3)[i - 3]);
            }
        }
        assert(a =~= b);
    }
}

/// Decoding the text of some bytes gives those bytes back.
pub proof fn lemma_decode_encode(bytes: Seq<u8>)
    ensures
        base64_standard_decode(base64_standard_encode(bytes)) == Some(bytes),
{
    let text = base64_standard_encode(bytes);
    assert(exists|b: Seq<u8>| #[trigger] base64_standard_encode(b) == text);
    let c = choose|b: Seq<u8>| #[trigger] base64_standard_encode(b) == text;
    lemma_encode_injective(c, bytes);
}

/// A text that decodes has `4 * ceil(n / 3)` characters, where `n` is the
/// number of bytes it decodes to.
pub proof fn lemma_decoded_len(text: Seq<char>)
    ensures
        base64_standard_decode(text) matches Some(bytes) ==> text.len() == 4 * ((bytes.len() + 2) / 3),
{
    if let Some(bytes) = base64_standard_decode(text) {
        lemma_encode_len(bytes);
    }
}

} // verus!
