//! Facts about UTF-8 that connect the bytes of a string to its characters.

use vstd::prelude::*;
use vstd::utf8::*;

verus! {

/// True for the characters that UTF-8 encodes in a single byte.
pub open spec fn is_ascii_char(c: char) -> bool {
    c as u32 <= 0x7f
}

/// How the encoding of a non-empty text starts: with the bytes of its first
/// character, followed by the encoding of the rest. An ASCII character is
/// one byte, which is its own value; every byte of another character is
/// `0x80` or above.
pub proof fn lemma_first_char_bytes(text: Seq<char>)
    requires
        text.len() > 0,
    ensures
        ({
            let bytes = encode_utf8(text);
            let width = length_of_first_scalar(bytes);
            &&& 1 <= width <= 4
            &&& width <= bytes.len()
            &&& bytes.subrange(width, bytes.len() as int) == encode_utf8(text.drop_first())
            &&& is_ascii_char(text[0]) <==> bytes[0] <= 0x7f
            &&& is_ascii_char(text[0]) ==> width == 1 && bytes[0] as u32 == text[0] as u32
            &&& !is_ascii_char(text[0]) ==> forall|j: int| 0 <= j < width ==> bytes[j] >= 0x80
        }),
{
    let bytes = encode_utf8(text);
    let first = text[0] as u32;
    encode_utf8_first_scalar(text);
    char_is_scalar(text[0]);
    assert(bytes.subrange(encode_scalar(first).len() as int, bytes.len() as int)
        =~= encode_utf8(text.drop_first()));
    if bytes[0] <= 0x7f {
        let b = bytes[0];
        assert((b & 0x7f) as u32 == b as u32) by (bit_vector)
            requires
                b <= 0x7f,
        ;
    }
}

/// An ASCII text is a prefix of another text exactly when its bytes are a
/// prefix of the other's bytes.
pub proof fn lemma_ascii_prefix_bytes(prefix: Seq<char>, text: Seq<char>)
    requires
        is_ascii_chars(prefix),
    ensures
        prefix.is_prefix_of(text) <==> encode_utf8(prefix).is_prefix_of(encode_utf8(text)),
    decreases prefix.len(),
{
    if prefix.len() == 0 {
    } else {
        let p_bytes = encode_utf8(prefix);
        let t_bytes = encode_utf8(text);
        let p_rest = prefix.drop_first();
        lemma_first_char_bytes(prefix);
        assert(is_ascii_char(prefix[0]));
        assert(is_ascii_chars(p_rest));
        if text.len() == 0 {
        } else {
            let t_rest = text.drop_first();
            lemma_first_char_bytes(text);
            lemma_ascii_prefix_bytes(p_rest, t_rest);
            if prefix.is_prefix_of(text) {
                assert(text[0] == prefix[0]);
                assert(p_rest =~= t_rest.subrange(0, p_rest.len() as int));
                let pr = encode_utf8(p_rest);
                let tr = encode_utf8(t_rest);
                assert(p_bytes =~= t_bytes.subrange(0, p_bytes.len() as int)) by {
                    assert forall|i: int| 0 < i < p_bytes.len() implies p_bytes[i] == t_bytes[i] by {
                        assert(p_bytes[i] == pr[i - 1]);
                        assert(t_bytes[i] == tr.subrange(0, pr.len() as int)[i - 1]);
                    }
                }
            }
            if p_bytes.is_prefix_of(t_bytes) {
                assert(t_bytes[0] == p_bytes[0]);
                assert(text[0] == prefix[0]) by {
                    char_u32_cast(text[0], text[0] as u32);
                    char_u32_cast(prefix[0], prefix[0] as u32);
                }
                let pr = encode_utf8(p_rest);
                let tr = encode_utf8(t_rest);
                assert(pr =~= tr.subrange(0, pr.len() as int)) by {
                    assert forall|i: int| 0 <= i < pr.len() implies pr[i] == tr[i] by {
                        assert(pr[i] == p_bytes[i + 1]);
                        assert(tr[i] == t_bytes[i + 1]);
                    }
                }
                assert(prefix =~= text.subrange(0, prefix.len() as int)) by {
                    assert forall|i: int| 0 < i < prefix.len() implies prefix[i] == text[i] by {
                        assert(prefix[i] == p_rest[i - 1]);
                        assert(text[i] == t_rest[i - 1]);
                    }
                }
            }
        }
    }
}

} // verus!
