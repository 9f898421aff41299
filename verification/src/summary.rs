//! The labelled excerpt that opens a processed context.

use vstd::prelude::*;
use vstd::string::*;
use vstd::utf8::*;

verus! {

/// The excerpt keeps at most this many bytes of the text's UTF-8 encoding.
pub const SUMMARY_LIMIT: usize = 200;

/// The label in front of every summary.
pub open spec fn summary_label() -> Seq<char> {
    "Summary: "@
}

/// The byte offset at which the excerpt stops: the encoded length of the
/// text, capped at [`SUMMARY_LIMIT`].
pub open spec fn summary_cut(text: Seq<char>) -> int {
    let len = encode_utf8(text).len() as int;
    if len < SUMMARY_LIMIT as int {
        len
    } else {
        SUMMARY_LIMIT as int
    }
}

/// True when the cut does not fall inside the encoding of a character, so
/// that the text can be split there.
pub open spec fn summarizable(text: Seq<char>) -> bool {
    is_char_boundary(encode_utf8(text), summary_cut(text))
}

/// The characters encoded by the bytes in front of the cut.
pub open spec fn summary_excerpt(text: Seq<char>) -> Seq<char> {
    decode_utf8(encode_utf8(text).subrange(0, summary_cut(text)))
}

/// The summary of a text: the label followed by the excerpt.
pub open spec fn summary_text(text: Seq<char>) -> Seq<char> {
    summary_label() + summary_excerpt(text)
}

/// Tells whether `text` can be cut for a summary.
pub fn is_summarizable(text: &str) -> (ok: bool)
    ensures
        ok == summarizable(text@),
{
    let len = text.as_bytes().len();
    let cut = if len < SUMMARY_LIMIT {
        len
    } else {
        SUMMARY_LIMIT
    };
    text.is_char_boundary(cut)
}

/// Builds the summary of `text`.
pub fn summarize(text: &str) -> (out: String)
    requires
        summarizable(text@),
    ensures
        out@ == summary_text(text@),
{
    let len = text.as_bytes().len();
    let cut = if len < SUMMARY_LIMIT {
        len
    } else {
        SUMMARY_LIMIT
    };
    let (head, _) = text.split_at(cut);
    proof {
        encode_utf8_decode_utf8(head@);
    }
    let mut out = String::from_str("Summary: ");
    out.append(head);
    out
}

/// Where the text can be cut, the excerpt is the prefix of the text whose
/// encoding is exactly the bytes in front of the cut.
pub proof fn lemma_excerpt_is_prefix(text: Seq<char>)
    requires
        summarizable(text),
    ensures
        summary_excerpt(text).is_prefix_of(text),
        encode_utf8(summary_excerpt(text)) == encode_utf8(text).subrange(0, summary_cut(text)),
{
    let bytes = encode_utf8(text);
    let cut = summary_cut(text);
    let head = bytes.subrange(0, cut);
    let tail = bytes.subrange(cut, bytes.len() as int);
    encode_utf8_valid_utf8(text);
    encode_utf8_decode_utf8(text);
    valid_utf8_split(bytes, cut);
    decode_utf8_split(bytes, cut);
    decode_utf8_encode_utf8(head);
    assert(text =~= decode_utf8(head) + decode_utf8(tail));
    assert(text.subrange(0, decode_utf8(head).len() as int) =~= decode_utf8(head));
}

/// A text whose encoding fits the limit is summarized whole.
pub proof fn lemma_short_text_kept(text: Seq<char>)
    requires
        encode_utf8(text).len() <= SUMMARY_LIMIT,
    ensures
        summarizable(text),
        summary_text(text) == summary_label() + text,
{
    let bytes = encode_utf8(text);
    encode_utf8_valid_utf8(text);
    encode_utf8_decode_utf8(text);
    is_char_boundary_start_end_of_seq(bytes);
    assert(bytes.subrange(0, bytes.len() as int) =~= bytes);
}

/// The summary of an ASCII text is the label followed by the first
/// `min(200, len)` characters of the text.
pub proof fn lemma_ascii_summary(text: Seq<char>)
    requires
        is_ascii_chars(text),
    ensures
        summarizable(text),
        summary_text(text) == summary_label() + text.subrange(
            0,
            if text.len() < SUMMARY_LIMIT {
                text.len() as int
            } else {
                SUMMARY_LIMIT as int
            },
        ),
{
    let bytes = encode_utf8(text);
    let cut = summary_cut(text);
    encode_utf8_valid_utf8(text);
    is_ascii_chars_encode_utf8(text);
    if cut < bytes.len() {
        assert(is_leading_byte_width_1(bytes[cut]));
        is_char_boundary_iff_is_leading_byte(bytes, cut);
    } else {
        is_char_boundary_start_end_of_seq(bytes);
    }
    lemma_excerpt_is_prefix(text);
    let excerpt = summary_excerpt(text);
    assert(is_ascii_chars(excerpt)) by {
        assert forall|i: int| 0 <= i < excerpt.len() implies '\0' <= #[trigger] excerpt[i]
            <= '\u{7f}' by {
            assert(excerpt[i] == text[i]);
        }
    }
    is_ascii_chars_encode_utf8(excerpt);
    assert(excerpt =~= text.subrange(0, cut));
}

} // verus!
