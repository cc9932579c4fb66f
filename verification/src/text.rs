//! Text on its way to and from the driver: sources that must survive the trip
//! into a C string, and information logs that come back as raw bytes.
use vstd::prelude::*;
use vstd::slice::slice_subrange;
use vstd::string::StringSliceAdditionalSpecFns;
use vstd::utf8::{
    decode_utf8, encode_utf8, encode_utf8_decode_utf8, encode_utf8_valid_utf8, valid_utf8,
};

verus! {

/// What `String::from_utf8_lossy` makes of `bytes`: their text, with a
/// replacement character for each stretch that is not UTF-8.
pub uninterp spec fn lossy_utf8(bytes: Seq<u8>) -> Seq<char>;

/// The text that `bytes` are read as: what they encode where they are UTF-8,
/// and else what the lossy conversion makes of them.
pub open spec fn lenient_text(bytes: Seq<u8>) -> Seq<char> {
    if valid_utf8(bytes) {
        decode_utf8(bytes)
    } else {
        lossy_utf8(bytes)
    }
}

/// What stands before the first zero byte of `bytes`; all of them where none
/// is zero.
pub open spec fn before_nul(bytes: Seq<u8>) -> Seq<u8> {
    match bytes.index_of_first(0u8) {
        Some(end) => bytes.take(end),
        None => bytes,
    }
}

/// The text of a log that came back in the buffer `bytes`: what stands
/// before the terminator, read leniently.
pub open spec fn log_text(bytes: Seq<u8>) -> Seq<char> {
    lenient_text(before_nul(bytes))
}

/// A log reads back as it was written. Where a text whose UTF-8 form holds
/// no zero byte is followed by a terminator, the log's text is that text,
/// whatever stands in the buffer behind the terminator.
pub proof fn log_text_round_trip(text: Seq<char>, rest: Seq<u8>)
    requires
        !encode_utf8(text).contains(0u8),
    ensures
        log_text(encode_utf8(text).push(0u8) + rest) == text,
{
    broadcast use {encode_utf8_valid_utf8, encode_utf8_decode_utf8};

    let content = encode_utf8(text);
    let buffer = content.push(0u8) + rest;
    buffer.index_of_first_ensures(0u8);
    assert(buffer[content.len() as int] == 0u8);
    assert(forall|j: int| 0 <= j < content.len() ==> buffer[j] == content[j]);
    assert(buffer.index_of_first(0u8) == Some(content.len() as int));
    assert(buffer.take(content.len() as int) =~= content);
}

/// `String::from_utf8_lossy`. Believed: the text is a function of the bytes
/// alone, and where the bytes are well-formed UTF-8 it is the characters they
/// encode.
#[verifier::external_body]
fn from_utf8_lossy(bytes: &[u8]) -> (text: String)
    ensures
        text@ == lossy_utf8(bytes@),
        valid_utf8(bytes@) ==> text@ == decode_utf8(bytes@),
{
    String::from_utf8_lossy(bytes).into_owned()
}

/// Whether a zero byte stands among the first `end` bytes.
fn nul_before(bytes: &[u8], end: usize) -> (found: bool)
    requires
        end <= bytes@.len(),
    ensures
        found == bytes@.take(end as int).contains(0u8),
{
    let mut i: usize = 0;
    while i < end
        invariant
            i <= end <= bytes@.len(),
            forall|j: int| 0 <= j < i ==> bytes@[j] != 0,
        decreases end - i,
    {
        if bytes[i] == 0 {
            assert(bytes@.take(end as int)[i as int] == 0u8);
            return true;
        }
        i += 1;
    }
    false
}

/// Whether the UTF-8 form of `text` holds a zero byte. Such a text cannot be
/// handed to the driver as a C string.
pub fn contains_nul(text: &str) -> (found: bool)
    ensures
        found == text.spec_bytes().contains(0u8),
{
    let bytes = text.as_bytes();
    let found = nul_before(bytes, bytes.len());
    assert(bytes@.take(bytes@.len() as int) =~= bytes@);
    found
}

/// How many bytes stand before the first zero byte.
fn content_len(bytes: &[u8]) -> (end: usize)
    ensures
        end <= bytes@.len(),
        bytes@.take(end as int) == before_nul(bytes@),
{
    let mut end: usize = 0;
    while end < bytes.len() && bytes[end] != 0
        invariant
            end <= bytes@.len(),
            forall|j: int| 0 <= j < end ==> bytes@[j] != 0,
        decreases bytes@.len() - end,
    {
        end += 1;
    }
    proof {
        bytes@.index_of_first_ensures(0u8);
        if end == bytes@.len() {
            assert(bytes@.take(end as int) =~= bytes@);
        }
    }
    end
}

/// Reads a buffer that a log was fetched into. Every buffer has a text: what
/// stands before the first zero byte counts, and bytes that are not UTF-8
/// are replaced.
pub fn read_log(bytes: &[u8]) -> (text: String)
    ensures
        text@ == log_text(bytes@),
{
    let end = content_len(bytes);
    from_utf8_lossy(slice_subrange(bytes, 0, end))
}

} // verus!
