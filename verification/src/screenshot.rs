//! Screenshots arrive either as bare base64 or wrapped in an image data URI;
//! only the payload is kept.

use crate::bytes::{find_byte, is_first_index_of, starts_with};
use crate::encoding::{is_ascii_char, lemma_ascii_prefix_bytes, lemma_first_char_bytes};
use vstd::prelude::*;
use vstd::string::*;
use vstd::utf8::*;

verus! {

/// The byte that encodes a comma.
pub const COMMA: u8 = 0x2c;

/// How an image data URI begins.
pub open spec fn data_uri_marker() -> Seq<char> {
    "data:image/"@
}

/// What follows the first comma of `s`, if `s` has a comma.
pub open spec fn after_first_comma(s: Seq<char>) -> Option<Seq<char>>
    decreases s.len(),
{
    if s.len() == 0 {
        None
    } else if s[0] == ',' {
        Some(s.drop_first())
    } else {
        after_first_comma(s.drop_first())
    }
}

/// The payload of a screenshot string: for an image data URI, what follows
/// its first comma; any other string, and a data URI without a comma, is its
/// own payload.
pub open spec fn screenshot_payload(s: Seq<char>) -> Seq<char> {
    if data_uri_marker().is_prefix_of(s) {
        match after_first_comma(s) {
            Some(rest) => rest,
            None => s,
        }
    } else {
        s
    }
}

/// A text without a comma has nothing after a first comma, and conversely.
pub proof fn lemma_no_comma(s: Seq<char>)
    ensures
        after_first_comma(s) is None <==> !s.contains(','),
    decreases s.len(),
{
    if s.len() == 0 {
    } else if s[0] == ',' {
    } else {
        let rest = s.drop_first();
        lemma_no_comma(rest);
        if s.contains(',') {
            let i = choose|i: int| 0 <= i < s.len() && s[i] == ',';
            assert(rest[i - 1] == ',');
        }
        if rest.contains(',') {
            let i = choose|i: int| 0 <= i < rest.len() && rest[i] == ',';
            assert(s[i + 1] == ',');
        }
    }
}

/// Where the first comma of `s` is at `i`, what follows it is the rest of
/// `s` from `i + 1` on.
pub proof fn lemma_first_comma_at(s: Seq<char>, i: int)
    requires
        is_first_index_of(s, ',', i),
    ensures
        after_first_comma(s) == Some(s.subrange(i + 1, s.len() as int)),
    decreases s.len(),
{
    let rest = s.drop_first();
    if i == 0 {
        assert(rest =~= s.subrange(1, s.len() as int));
    } else {
        assert(s[0] != ',');
        assert(is_first_index_of(rest, ',', i - 1)) by {
            assert forall|j: int| 0 <= j < i - 1 implies rest[j] != ',' by {
                assert(rest[j] == s[j + 1]);
            }
        }
        lemma_first_comma_at(rest, i - 1);
        assert(rest.subrange(i, rest.len() as int) =~= s.subrange(i + 1, s.len() as int));
    }
}

/// A string that does not begin as an image data URI is its own payload.
pub proof fn lemma_plain_string_kept(s: Seq<char>)
    requires
        !data_uri_marker().is_prefix_of(s),
    ensures
        screenshot_payload(s) == s,
{
}

/// An image data URI without a comma is its own payload.
pub proof fn lemma_data_uri_without_comma(s: Seq<char>)
    requires
        data_uri_marker().is_prefix_of(s),
        !s.contains(','),
    ensures
        screenshot_payload(s) == s,
{
    lemma_no_comma(s);
}

/// The payload of an image data URI is what follows its first comma.
pub proof fn lemma_data_uri_payload(s: Seq<char>, i: int)
    requires
        data_uri_marker().is_prefix_of(s),
        is_first_index_of(s, ',', i),
    ensures
        screenshot_payload(s) == s.subrange(i + 1, s.len() as int),
{
    lemma_first_comma_at(s, i);
}

/// A text whose bytes hold no comma byte has no comma.
proof fn lemma_comma_byte_absent(text: Seq<char>)
    requires
        !encode_utf8(text).contains(COMMA),
    ensures
        after_first_comma(text) is None,
    decreases text.len(),
{
    if text.len() > 0 {
        let bytes = encode_utf8(text);
        let rest = text.drop_first();
        let width = length_of_first_scalar(bytes);
        lemma_first_char_bytes(text);
        if text[0] == ',' {
            assert(is_ascii_char(text[0]));
            assert(bytes[0] == COMMA);
        }
        if encode_utf8(rest).contains(COMMA) {
            let j = choose|j: int| 0 <= j < encode_utf8(rest).len() && encode_utf8(rest)[j] == COMMA;
            assert(bytes[j + width] == COMMA);
        }
        lemma_comma_byte_absent(rest);
    }
}

/// The first comma byte of a text ends at a character boundary, and the
/// bytes behind it encode what follows the text's first comma.
proof fn lemma_comma_byte_found(text: Seq<char>, i: int)
    requires
        is_first_index_of(encode_utf8(text), COMMA, i),
    ensures
        is_char_boundary(encode_utf8(text), i + 1),
        after_first_comma(text) == Some(
            decode_utf8(encode_utf8(text).subrange(i + 1, encode_utf8(text).len() as int)),
        ),
    decreases text.len(),
{
    let bytes = encode_utf8(text);
    let rest = text.drop_first();
    let rest_bytes = encode_utf8(rest);
    let width = length_of_first_scalar(bytes);
    assert(text.len() > 0);
    lemma_first_char_bytes(text);
    encode_utf8_valid_utf8(text);
    encode_utf8_valid_utf8(rest);
    encode_utf8_first_scalar(text);
    if text[0] == ',' {
        assert(is_ascii_char(text[0]));
        assert(bytes[0] == COMMA);
        assert(i == 0);
        assert(is_char_boundary(rest_bytes, 0));
        encode_utf8_decode_utf8(rest);
    } else {
        if is_ascii_char(text[0]) {
            assert(bytes[0] != COMMA) by {
                char_u32_cast(text[0], text[0] as u32);
            }
        }
        assert(i >= width);
        assert(is_first_index_of(rest_bytes, COMMA, i - width)) by {
            assert(rest_bytes[i - width] == bytes[i]);
            assert forall|j: int| 0 <= j < i - width implies rest_bytes[j] != COMMA by {
                assert(rest_bytes[j] == bytes[j + width]);
            }
        }
        lemma_comma_byte_found(rest, i - width);
        assert(rest_bytes.subrange(i - width + 1, rest_bytes.len() as int) =~= bytes.subrange(
            i + 1,
            bytes.len() as int,
        ));
    }
}

/// Strips the data-URI wrapping from a screenshot string.
pub fn strip_data_uri(s: String) -> (out: String)
    ensures
        out@ == screenshot_payload(s@),
{
    let text = s.as_str();
    let bytes = text.as_bytes();
    let marker = "data:image/";
    proof {
        reveal_strlit("data:image/");
        lemma_ascii_prefix_bytes(marker@, s@);
    }
    if !starts_with(bytes, marker.as_bytes()) {
        return s;
    }
    let len = bytes.len();
    match find_byte(bytes, COMMA) {
        None => {
            proof {
                lemma_comma_byte_absent(s@);
            }
            s
        },
        Some(i) => {
            proof {
                assert(i < len);
                lemma_comma_byte_found(s@, i as int);
            }
            let (_, tail) = text.split_at(i + 1);
            proof {
                encode_utf8_decode_utf8(tail@);
            }
            String::from_str(tail)
        },
    }
}

} // verus!
