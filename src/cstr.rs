//! NUL-terminated byte strings, as the target's loader and its objects use them.

use vstd::prelude::*;
use vstd::utf8::{valid_utf8, decode_utf8};

verus! {

/// No byte of `text` is NUL.
pub open spec fn has_no_nul(text: Seq<u8>) -> bool {
    forall|i: int| 0 <= i < text.len() ==> text[i] != 0u8
}

/// The bytes of `text` up to its first NUL, or all of them where it holds none.
pub open spec fn before_nul(bytes: Seq<u8>) -> Seq<u8>
    decreases bytes.len(),
{
    if bytes.len() == 0 {
        bytes
    } else if bytes[0] == 0u8 {
        Seq::empty()
    } else {
        seq![bytes[0]] + before_nul(bytes.drop_first())
    }
}

/// The text of a C string: the UTF-8 characters before the first NUL, where
/// those bytes are valid UTF-8.
pub open spec fn c_text(bytes: Seq<u8>) -> Option<Seq<char>> {
    if valid_utf8(before_nul(bytes)) {
        Some(decode_utf8(before_nul(bytes)))
    } else {
        None
    }
}

pub proof fn lemma_before_nul_is_prefix(bytes: Seq<u8>)
    ensures
        before_nul(bytes).len() <= bytes.len(),
        before_nul(bytes) =~= bytes.subrange(0, before_nul(bytes).len() as int),
        has_no_nul(before_nul(bytes)),
        before_nul(bytes).len() < bytes.len() ==> bytes[before_nul(bytes).len() as int] == 0u8,
    decreases bytes.len(),
{
    if bytes.len() > 0 && bytes[0] != 0u8 {
        lemma_before_nul_is_prefix(bytes.drop_first());
    }
}

/// Relies on `String::from_utf8`: it accepts exactly the valid UTF-8 byte
/// sequences and decodes them.
#[verifier::external_body]
fn utf8_to_string(bytes: Vec<u8>) -> (r: Option<String>)
    ensures
        r is Some <==> valid_utf8(bytes@),
        r is Some ==> r->0@ == decode_utf8(bytes@),
{
    String::from_utf8(bytes).ok()
}

/// The bytes of `bytes` before its first NUL (all of them where there is none).
pub fn take_before_nul(bytes: &[u8]) -> (r: Vec<u8>)
    ensures
        r@ == before_nul(bytes@),
{
    proof {
        lemma_before_nul_is_prefix(bytes@);
    }
    let mut out: Vec<u8> = Vec::new();
    let mut i: usize = 0;
    assert(bytes@.subrange(0, bytes@.len() as int) =~= bytes@);
    while i < bytes.len()
        invariant
            i <= bytes.len(),
            out@ =~= bytes@.subrange(0, i as int),
            has_no_nul(out@),
            before_nul(bytes@) =~= out@ + before_nul(bytes@.subrange(i as int, bytes@.len() as int)),
        decreases bytes.len() - i,
    {
        let b = bytes[i];
        let ghost rest = bytes@.subrange(i as int, bytes@.len() as int);
        assert(rest[0] == b);
        if b == 0u8 {
            assert(before_nul(rest) =~= Seq::<u8>::empty());
            assert(before_nul(bytes@) =~= out@);
            return out;
        }
        assert(rest.drop_first() =~= bytes@.subrange(i + 1, bytes@.len() as int));
        out.push(b);
        i = i + 1;
    }
    assert(bytes@.subrange(i as int, bytes@.len() as int) =~= Seq::<u8>::empty());
    out
}

/// Reads the text of a C string held in `bytes`: the characters before the
/// first NUL, or `None` where those bytes are not valid UTF-8.
pub fn c_str_text(bytes: &[u8]) -> (r: Option<String>)
    ensures
        r is Some <==> c_text(bytes@) is Some,
        r is Some ==> r->0@ == c_text(bytes@)->0,
{
    let prefix = take_before_nul(bytes);
    utf8_to_string(prefix)
}

/// Reads the text held inline in a fixed-size character array: `None` where
/// the array starts with NUL or its text is not valid UTF-8.
pub fn inline_text(bytes: &[u8]) -> (r: Option<String>)
    ensures
        bytes@.len() == 0 || bytes@[0] == 0u8 ==> r is None,
        bytes@.len() > 0 && bytes@[0] != 0u8 ==> (r is Some <==> c_text(bytes@) is Some),
        r is Some ==> r->0@ == c_text(bytes@)->0,
{
    if bytes.len() == 0 || bytes[0] == 0u8 {
        None
    } else {
        c_str_text(bytes)
    }
}

/// Encodes `text` as a NUL-terminated buffer; `None` where `text` holds a NUL
/// itself, which would cut the string short.
pub fn encode_c_string(text: &[u8]) -> (r: Option<Vec<u8>>)
    ensures
        r is Some <==> has_no_nul(text@),
        r is Some ==> r->0@ == text@.push(0u8),
{
    let mut out: Vec<u8> = Vec::new();
    let mut i: usize = 0;
    while i < text.len()
        invariant
            i <= text.len(),
            out@ =~= text@.subrange(0, i as int),
            has_no_nul(text@.subrange(0, i as int)),
        decreases text.len() - i,
    {
        if text[i] == 0u8 {
            return None;
        }
        out.push(text[i]);
        i = i + 1;
    }
    assert(text@.subrange(0, i as int) =~= text@);
    out.push(0u8);
    Some(out)
}

} // verus!
