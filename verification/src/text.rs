//! Text in native buffers: a run of UTF-8 bytes that a zero byte ends.

use crate::error::DecodeError;
use vstd::prelude::*;
use vstd::slice::slice_subrange;
use vstd::string::StringSliceAdditionalSpecFns;
use vstd::utf8::{decode_utf8, encode_utf8, encode_utf8_decode_utf8, encode_utf8_valid_utf8, valid_utf8};

verus! {

/// The number of bytes of `buf` that stand before its first zero byte; the
/// length of `buf` where it holds none.
pub open spec fn c_str_len(buf: Seq<u8>) -> nat
    decreases buf.len(),
{
    if buf.len() == 0 || buf[0] == 0 {
        0
    } else {
        1 + c_str_len(buf.drop_first())
    }
}

/// Whether a zero byte ends the text in `buf`.
pub open spec fn is_terminated(buf: Seq<u8>) -> bool {
    c_str_len(buf) < buf.len()
}

/// The bytes of the text in `buf`: those before its first zero byte.
pub open spec fn c_str_bytes(buf: Seq<u8>) -> Seq<u8> {
    buf.take(c_str_len(buf) as int)
}

/// What a `char *` leads to, as a sequence of bytes.
pub open spec fn pointee(ptr: Option<&[u8]>) -> Option<Seq<u8>> {
    match ptr {
        Some(buf) => Some(buf@),
        None => None,
    }
}

/// The text behind a `char *`: the pointer is not null, a zero byte ends the
/// buffer, and the bytes before it are UTF-8.
pub open spec fn text_of(ptr: Option<Seq<u8>>) -> Result<Seq<char>, DecodeError> {
    match ptr {
        None => Err(DecodeError::NullPointer),
        Some(buf) => if !is_terminated(buf) {
            Err(DecodeError::Unterminated)
        } else if !valid_utf8(c_str_bytes(buf)) {
            Err(DecodeError::InvalidUtf8)
        } else {
            Ok(decode_utf8(c_str_bytes(buf)))
        },
    }
}

/// Whether a text can stand in a native buffer: none of its bytes is zero.
pub open spec fn is_c_text(text: Seq<char>) -> bool {
    forall|i: int| 0 <= i < encode_utf8(text).len() ==> encode_utf8(text)[i] != 0
}

/// The native buffer of a text: its UTF-8 bytes and the zero byte that ends
/// them.
pub open spec fn c_string_of(text: Seq<char>) -> Seq<u8> {
    encode_utf8(text).push(0u8)
}

/// What a typed outcome says, with the text taken as its characters.
pub open spec fn text_outcome(r: Result<&str, DecodeError>) -> Result<Seq<char>, DecodeError> {
    match r {
        Ok(s) => Ok(s@),
        Err(e) => Err(e),
    }
}

/// `c_str_len` is the place of the first zero byte: no byte before it is
/// zero, and where it lies inside the buffer the byte there is zero.
pub proof fn lemma_c_str_len(buf: Seq<u8>)
    ensures
        c_str_len(buf) <= buf.len(),
        forall|i: int| 0 <= i < c_str_len(buf) ==> buf[i] != 0,
        is_terminated(buf) ==> buf[c_str_len(buf) as int] == 0,
    decreases buf.len(),
{
    if buf.len() == 0 || buf[0] == 0 {
    } else {
        let rest = buf.drop_first();
        lemma_c_str_len(rest);
        assert forall|i: int| 0 <= i < c_str_len(buf) implies buf[i] != 0 by {
            if i > 0 {
                assert(buf[i] == rest[i - 1]);
            }
        }
        if is_terminated(buf) {
            assert(buf[c_str_len(buf) as int] == rest[c_str_len(rest) as int]);
        }
    }
}

/// A place with no zero byte before it, which is the end of the buffer or
/// holds a zero byte, is `c_str_len`.
pub proof fn lemma_c_str_len_is(buf: Seq<u8>, n: int)
    requires
        0 <= n <= buf.len(),
        forall|i: int| 0 <= i < n ==> buf[i] != 0,
        n < buf.len() ==> buf[n] == 0,
    ensures
        c_str_len(buf) == n,
    decreases buf.len(),
{
    if buf.len() == 0 || buf[0] == 0 {
    } else {
        let rest = buf.drop_first();
        assert forall|i: int| 0 <= i < n - 1 implies rest[i] != 0 by {
            assert(rest[i] == buf[i + 1]);
        }
        lemma_c_str_len_is(rest, n - 1);
    }
}

/// A text that was written into a native buffer is read back from it
/// unchanged.
pub proof fn lemma_text_round_trip(text: Seq<char>)
    requires
        is_c_text(text),
    ensures
        text_of(Some(c_string_of(text))) == Ok::<Seq<char>, DecodeError>(text),
{
    let bytes = encode_utf8(text);
    let buf = c_string_of(text);
    lemma_c_str_len_is(buf, bytes.len() as int);
    assert(c_str_bytes(buf) =~= bytes);
    encode_utf8_valid_utf8(text);
    encode_utf8_decode_utf8(text);
}

/// `core::str::from_utf8`: the bytes as a string slice if they are UTF-8, and
/// nothing if they are not. The slice that comes back holds the very bytes
/// that went in.
#[verifier::external_body]
fn from_utf8<'a>(bytes: &'a [u8]) -> (text: Option<&'a str>)
    ensures
        text is Some <==> valid_utf8(bytes@),
        text matches Some(s) ==> s.spec_bytes() == bytes@,
{
    match core::str::from_utf8(bytes) {
        Ok(s) => Some(s),
        Err(_) => None,
    }
}

/// Counts the bytes of `buf` before its first zero byte.
pub fn text_len(buf: &[u8]) -> (n: usize)
    ensures
        n == c_str_len(buf@),
{
    let mut n: usize = 0;
    while n < buf.len() && buf[n] != 0
        invariant
            n <= buf.len(),
            forall|i: int| 0 <= i < n ==> buf@[i] != 0,
        decreases buf.len() - n,
    {
        n = n + 1;
    }
    proof {
        lemma_c_str_len_is(buf@, n as int);
    }
    n
}

/// Reads the text behind a `char *`, without copying it. A null pointer, a
/// buffer that no zero byte ends and bytes that are not UTF-8 are each
/// reported as the fault that they are.
pub fn decode_text<'a>(ptr: Option<&'a [u8]>) -> (text: Result<&'a str, DecodeError>)
    ensures
        text_outcome(text) == text_of(pointee(ptr)),
{
    match ptr {
        None => Err(DecodeError::NullPointer),
        Some(buf) => {
            let n = text_len(buf);
            if n >= buf.len() {
                return Err(DecodeError::Unterminated);
            }
            let bytes = slice_subrange(buf, 0, n);
            assert(bytes@ == c_str_bytes(buf@));
            match from_utf8(bytes) {
                Some(s) => {
                    proof {
                        encode_utf8_decode_utf8(s@);
                    }
                    Ok(s)
                },
                None => Err(DecodeError::InvalidUtf8),
            }
        },
    }
}

/// Writes a text into a fresh native buffer: its bytes, then a zero byte.
/// A text that holds a zero byte itself has no such buffer, and `None` says
/// so.
pub fn c_string(text: &str) -> (buf: Option<Vec<u8>>)
    ensures
        buf is Some <==> is_c_text(text@),
        buf matches Some(b) ==> b@ == c_string_of(text@),
{
    let bytes = text.as_bytes();
    let mut buf: Vec<u8> = Vec::new();
    let mut i: usize = 0;
    while i < bytes.len()
        invariant
            i <= bytes.len(),
            bytes@ == encode_utf8(text@),
            buf@ == bytes@.take(i as int),
            forall|j: int| 0 <= j < i ==> bytes@[j] != 0,
        decreases bytes.len() - i,
    {
        let b = bytes[i];
        if b == 0 {
            return None;
        }
        buf.push(b);
        assert(buf@ == bytes@.take(i + 1));
        i = i + 1;
    }
    assert(bytes@.take(i as int) == bytes@);
    buf.push(0u8);
    Some(buf)
}

} // verus!
