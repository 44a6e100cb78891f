//! Helpers for the text that an agent writes.

use vstd::prelude::*;
use vstd::string::StringSliceAdditionalSpecFns;
use vstd::utf8::*;
use crate::text::{join, trim, trimmed};

verus! {

#[verifier::external_type_specification]
#[verifier::external_body]
pub struct ExJsonDocument(serde_json::Value);

/// Whether `text` is a JSON document, as `serde_json::from_str` reads one.
pub uninterp spec fn is_json(text: Seq<char>) -> bool;

/// Calls `serde_json::from_str` for a `serde_json::Value` and keeps the
/// document where there is one. The contract only names whether there is
/// one: that depends on the text alone.
#[verifier::external_body]
fn parse_json(text: &str) -> (r: Option<serde_json::Value>)
    ensures
        r is Some == is_json(text@),
{
    serde_json::from_str(text).ok()
}

/// The JSON document that `text` is, if it is one.
pub fn extract_structured_data(text: &str) -> (r: Option<serde_json::Value>)
    ensures
        r is Some == is_json(text@),
{
    parse_json(text)
}

/// The output without the whitespace around it.
pub fn clean_output(raw_output: &str) -> (r: String)
    ensures
        r@ == trimmed(raw_output@),
{
    trim(raw_output).to_string()
}

/// The code as it is.
pub fn format_code(code: &str) -> (r: String)
    ensures
        r@ == code@,
{
    code.to_string()
}

/// The text as it is.
pub fn markdown_to_html(markdown: &str) -> (r: String)
    ensures
        r@ == markdown@,
{
    markdown.to_string()
}

/// A rough count of tokens for a text of `bytes` bytes (`str::len` counts
/// bytes): one token for every
/// four bytes, a last part of fewer bytes counting as one.
pub open spec fn token_estimate(bytes: nat) -> nat {
    (bytes + 3) / 4
}

/// A rough count of the tokens of `text`.
pub fn count_tokens(text: &str) -> (r: usize)
    ensures
        r == token_estimate(text.len() as nat),
{
    let len = text.len();
    if len % 4 == 0 {
        len / 4
    } else {
        len / 4 + 1
    }
}

/// The place of the last space among `bytes`, and minus one where there is
/// none.
pub open spec fn last_space(bytes: Seq<u8>) -> int
    decreases bytes.len(),
{
    if bytes.len() == 0 {
        -1
    } else if bytes.last() == 32 {
        bytes.len() - 1
    } else {
        last_space(bytes.drop_last())
    }
}

/// Where a text of the bytes `bytes` is cut for a limit of `max_length`
/// bytes: at the last space before the limit, and three bytes before the
/// limit where there is no space.
pub open spec fn cut_point(bytes: Seq<u8>, max_length: int) -> int {
    let space = last_space(bytes.subrange(0, max_length));
    if space >= 0 {
        space
    } else if max_length >= 3 {
        max_length - 3
    } else {
        0
    }
}

/// Whether `text` can be cut for a limit of `max_length` bytes: it can
/// where it is short enough to stay whole, and else where neither the limit
/// nor the cut falls into the middle of a character.
pub open spec fn can_truncate(text: Seq<char>, max_length: int) -> bool {
    encode_utf8(text).len() > max_length ==> is_char_boundary(encode_utf8(text), max_length)
        && is_char_boundary(encode_utf8(text), cut_point(encode_utf8(text), max_length))
}

/// `text` cut for a limit of `max_length` bytes: the text itself where it is
/// short enough, and else the text up to the cut, and three dots.
pub open spec fn truncated_text(text: Seq<char>, max_length: int) -> Seq<char> {
    if encode_utf8(text).len() <= max_length {
        text
    } else {
        decode_utf8(encode_utf8(text).subrange(0, cut_point(encode_utf8(text), max_length)))
            + "..."@
    }
}

/// Cuts `text` to `max_length` bytes at the last space before the limit,
/// and marks the cut with three dots.
pub fn truncate_text(text: &str, max_length: usize) -> (r: String)
    requires
        can_truncate(text@, max_length as int),
    ensures
        r@ == truncated_text(text@, max_length as int),
{
    broadcast use {encode_utf8_valid_utf8, encode_utf8_decode_utf8};

    let bytes = text.as_bytes();
    if bytes.len() <= max_length {
        return text.to_string();
    }
    let ghost head = bytes@.subrange(0, max_length as int);
    let mut i: usize = max_length;
    let mut found: Option<usize> = None;
    assert(head.subrange(0, i as int) =~= head);
    while i > 0 && found.is_none()
        invariant
            i <= max_length < bytes@.len(),
            head == bytes@.subrange(0, max_length as int),
            match found {
                Some(p) => p < max_length && last_space(head) == p,
                None => last_space(head) == last_space(head.subrange(0, i as int)),
            },
        decreases i + (if found is None { 1int } else { 0int }),
    {
        proof {
            assert(head.subrange(0, i as int).drop_last() =~= head.subrange(0, i - 1));
            assert(head.subrange(0, i as int).last() == bytes@[i - 1]);
        }
        i = i - 1;
        if bytes[i] == 32 {
            found = Some(i);
        }
    }
    let cut = match found {
        Some(p) => p,
        None => if max_length >= 3 {
            max_length - 3
        } else {
            0
        },
    };
    proof {
        if found is None {
            assert(head.subrange(0, 0) =~= Seq::<u8>::empty());
        }
        assert(cut == cut_point(bytes@, max_length as int));
    }
    let (prefix, _) = text.split_at(cut);
    proof {
        assert(prefix@ == decode_utf8(encode_utf8(prefix@)));
        assert(encode_utf8(prefix@) =~= bytes@.subrange(0, cut as int));
    }
    join(prefix, "...")
}

} // verus!
