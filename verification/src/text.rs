//! Which texts can be handed to C: those whose UTF-8 bytes hold no zero byte,
//! which are exactly those that hold no NUL character.

use crate::cstring::has_nul;
use vstd::prelude::*;
use vstd::utf8::{encode_scalar, encode_utf8, has_width_1_encoding};

verus! {

/// Whether some character of `text` is NUL.
pub open spec fn has_nul_char(text: Seq<char>) -> bool {
    exists|i: int| 0 <= i < text.len() && text[i] == '\0'
}

/// A concatenation holds a zero byte exactly when one of its parts does.
pub proof fn lemma_has_nul_concat(a: Seq<u8>, b: Seq<u8>)
    ensures
        has_nul(a + b) <==> has_nul(a) || has_nul(b),
{
    let ab = a + b;
    if has_nul(a) {
        let i = choose|i: int| 0 <= i < a.len() && a[i] == 0u8;
        assert(ab[i] == 0u8);
    }
    if has_nul(b) {
        let i = choose|i: int| 0 <= i < b.len() && b[i] == 0u8;
        assert(ab[a.len() + i] == 0u8);
    }
    if has_nul(ab) {
        let i = choose|i: int| 0 <= i < ab.len() && ab[i] == 0u8;
        if i < a.len() {
            assert(a[i] == 0u8);
        } else {
            assert(b[i - a.len()] == 0u8);
        }
    }
}

/// The UTF-8 encoding of a scalar holds a zero byte exactly when the scalar
/// is zero.
pub proof fn lemma_scalar_nul(s: u32)
    ensures
        has_nul(encode_scalar(s)) <==> s == 0,
{
    let e = encode_scalar(s);
    if has_width_1_encoding(s) {
        assert(((s & 0x7F) as u8 == 0u8) <==> s == 0) by (bit_vector)
            requires
                s <= 0x7Fu32,
        ;
        if s == 0 {
            assert(e[0] == 0u8);
        }
    } else {
        assert(0xC0u8 | ((s >> 6) & 0x1F) as u8 != 0u8) by (bit_vector);
        assert(0xE0u8 | ((s >> 12) & 0x0F) as u8 != 0u8) by (bit_vector);
        assert(0xF0u8 | ((s >> 18) & 0x7) as u8 != 0u8) by (bit_vector);
        assert(0x80u8 | (s & 0x3F) as u8 != 0u8) by (bit_vector);
        assert(0x80u8 | ((s >> 6) & 0x3F) as u8 != 0u8) by (bit_vector);
        assert(0x80u8 | ((s >> 12) & 0x3F) as u8 != 0u8) by (bit_vector);
    }
}

/// NUL is the one character whose scalar value is zero.
pub proof fn lemma_char_nul(c: char)
    ensures
        c as u32 == 0 <==> c == '\0',
{
}

/// The bytes of a text hold a zero byte exactly when the text holds a NUL
/// character: no other character has a zero byte in its encoding.
pub proof fn lemma_nul_byte_iff_nul_char(text: Seq<char>)
    ensures
        has_nul(encode_utf8(text)) <==> has_nul_char(text),
    decreases text.len(),
{
    if text.len() > 0 {
        let first: char = text[0];
        let rest = text.drop_first();
        lemma_scalar_nul(first as u32);
        lemma_nul_byte_iff_nul_char(rest);
        lemma_has_nul_concat(encode_scalar(first as u32), encode_utf8(rest));
        lemma_char_nul(first);
        if has_nul_char(rest) {
            let i = choose|i: int| 0 <= i < rest.len() && rest[i] == '\0';
            assert(text[i + 1] == '\0');
        }
        if has_nul_char(text) {
            let i = choose|i: int| 0 <= i < text.len() && text[i] == '\0';
            if i > 0 {
                assert(rest[i - 1] == '\0');
            }
        }
    }
}

} // verus!
