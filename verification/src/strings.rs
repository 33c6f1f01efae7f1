//! Comparisons on string slices, stated over their characters.
use vstd::prelude::*;
use vstd::utf8::*;

verus! {

/// The first byte of the UTF-8 encoding of a scalar is `-` exactly when the
/// scalar is `-`.
proof fn lemma_leading_byte_is_hyphen(v: u32)
    requires
        is_scalar(v),
    ensures
        encode_scalar(v).len() > 0,
        encode_scalar(v)[0] == 45u8 <==> v == 45,
{
    if has_width_1_encoding(v) {
        assert(v <= 0x7F ==> ((((v & 0x7F) as u8) == 45u8) <==> v == 45)) by (bit_vector);
    } else if has_width_2_encoding(v) {
        assert((0xC0u8 | (((v >> 6) & 0x1F) as u8)) != 45u8) by (bit_vector);
    } else if has_width_3_encoding(v) {
        assert((0xE0u8 | (((v >> 12) & 0x0F) as u8)) != 45u8) by (bit_vector);
    } else {
        assert((0xF0u8 | (((v >> 18) & 0x7) as u8)) != 45u8) by (bit_vector);
    }
}

/// Whether `a` and `b` hold the same characters.
pub fn str_equals(a: &str, b: &str) -> (r: bool)
    ensures
        r == (a@ == b@),
{
    let x = a.as_bytes();
    let y = b.as_bytes();
    proof {
        encode_utf8_decode_utf8(a@);
        encode_utf8_decode_utf8(b@);
    }
    if x.len() != y.len() {
        return false;
    }
    let mut i: usize = 0;
    while i < x.len()
        invariant
            x.len() == y.len(),
            0 <= i <= x.len(),
            x@ == encode_utf8(a@),
            y@ == encode_utf8(b@),
            forall|j: int| 0 <= j < i ==> x@[j] == y@[j],
        decreases x.len() - i,
    {
        if x[i] != y[i] {
            return false;
        }
        i += 1;
    }
    assert(x@ =~= y@);
    true
}

/// Whether the first character of `s` is `-`.
pub fn starts_with_hyphen(s: &str) -> (r: bool)
    ensures
        r == (s@.len() > 0 && s@[0] == '-'),
{
    let x = s.as_bytes();
    proof {
        if s@.len() > 0 {
            char_is_scalar(s@[0]);
            lemma_leading_byte_is_hyphen(s@[0] as u32);
            assert(encode_utf8(s@) == encode_scalar(s@[0] as u32) + encode_utf8(s@.drop_first()));
            assert(encode_utf8(s@)[0] == encode_scalar(s@[0] as u32)[0]);
            char_u32_cast(s@[0], s@[0] as u32);
            char_u32_cast('-', 45u32);
        } else {
            assert(encode_utf8(s@) =~= Seq::<u8>::empty());
        }
    }
    x.len() > 0 && x[0] == 45u8
}

} // verus!
