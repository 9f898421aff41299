//! HTML sanitization, delegated to the `ammonia` crate.

use vstd::prelude::*;
use vstd::utf8::*;

verus! {

/// The longest input, in bytes, that is handed to the cleaner: 512 MiB.
pub const MAX_HTML_LEN: usize = 0x2000_0000;

/// True when `html` is short enough to be cleaned: its encoding has at most
/// [`MAX_HTML_LEN`] bytes.
pub open spec fn cleanable(html: Seq<char>) -> bool {
    encode_utf8(html).len() <= MAX_HTML_LEN
}

/// The HTML that `ammonia::clean` produces for `html`. The cleaner works
/// with a policy that is fixed in its source and reads nothing but its
/// argument, so its output is a function of the input text.
pub uninterp spec fn cleaned_html(html: Seq<char>) -> Seq<char>;

/// `ammonia::clean` parses `src` as an HTML fragment, drops what its default
/// policy does not allow and serializes what is left. Of the policy nothing
/// is claimed here: the contract only gives the result its name.
///
/// The parser keeps text in buffers whose capacity is a `u32`, grown in
/// powers of two, and panics when a buffer would overflow. A byte of input
/// can become three bytes of text (a NUL is replaced by U+FFFD), so the
/// precondition admits only input that stays under 2 GiB when grown so.
pub assume_specification[ ammonia::clean ](src: &str) -> (out: String)
    requires
        cleanable(src@),
    ensures
        out@ == cleaned_html(src@),
;

/// Tells whether `html` is short enough to be cleaned.
pub fn is_cleanable(html: &str) -> (ok: bool)
    ensures
        ok == cleanable(html@),
{
    html.as_bytes().len() <= MAX_HTML_LEN
}

/// Sanitizes an HTML fragment with the default policy.
pub fn sanitize_html(html: &str) -> (out: String)
    requires
        cleanable(html@),
    ensures
        out@ == cleaned_html(html@),
{
    ammonia::clean(html)
}

} // verus!
