//! Text on its way to and from the host's C interface: strings without NUL
//! bytes on the way out, NUL-terminated buffers on the way in.

use vstd::prelude::*;
use vstd::string::*;
use vstd::utf8::{decode_utf8, valid_utf8};

verus! {

/// `bytes` without its zero bytes, in the same order.
pub open spec fn strip_nul(bytes: Seq<u8>) -> Seq<u8>
    decreases bytes.len(),
{
    if bytes.len() == 0 {
        Seq::empty()
    } else if bytes.last() == 0 {
        strip_nul(bytes.drop_last())
    } else {
        strip_nul(bytes.drop_last()).push(bytes.last())
    }
}

/// Stripping leaves no zero byte, takes nothing else away, and leaves bytes
/// without a zero byte as they are.
pub proof fn strip_nul_properties(bytes: Seq<u8>)
    ensures
        forall|i: int| 0 <= i < strip_nul(bytes).len() ==> strip_nul(bytes)[i] != 0,
        strip_nul(bytes).len() <= bytes.len(),
        (forall|i: int| 0 <= i < bytes.len() ==> bytes[i] != 0) ==> strip_nul(bytes) == bytes,
    decreases bytes.len(),
{
    if bytes.len() > 0 {
        let rest = bytes.drop_last();
        strip_nul_properties(rest);
        if forall|i: int| 0 <= i < bytes.len() ==> bytes[i] != 0 {
            assert forall|i: int| 0 <= i < rest.len() implies rest[i] != 0 by {
                assert(rest[i] == bytes[i]);
            }
            assert(bytes.last() == bytes[bytes.len() - 1]);
            assert(strip_nul(bytes) =~= bytes);
        }
    }
}

/// Maker of the bytes of a C string from text that may hold NUL characters.
pub struct LossyCString;

impl LossyCString {
    /// The bytes of `t` in UTF-8 with every zero byte left out: what a C
    /// string can hold of it. The terminator is not part of the result.
    #[allow(clippy::new_ret_no_self)]
    pub fn new(t: &str) -> (bytes: Vec<u8>)
        ensures
            bytes@ == strip_nul(t.spec_bytes()),
    {
        let source = t.as_bytes();
        let mut bytes: Vec<u8> = Vec::new();
        let mut at: usize = 0;
        while at < source.len()
            invariant
                at <= source@.len(),
                bytes@ == strip_nul(source@.take(at as int)),
            decreases source@.len() - at,
        {
            let byte = source[at];
            assert(source@.take(at as int + 1).drop_last() =~= source@.take(at as int));
            if byte != 0 {
                bytes.push(byte);
            }
            at += 1;
        }
        assert(source@.take(at as int) =~= source@);
        bytes
    }
}

/// Position of the first zero byte of `buffer`, or its length if it has
/// none.
pub open spec fn nul_position(buffer: Seq<u8>) -> int
    decreases buffer.len(),
{
    if buffer.len() == 0 || buffer[0] == 0 {
        0
    } else {
        1 + nul_position(buffer.subrange(1, buffer.len() as int))
    }
}

/// `nul_position` is the first zero byte: no byte before it is zero, and the
/// byte at it is, unless the buffer has no zero byte at all.
pub proof fn nul_position_is_first(buffer: Seq<u8>)
    ensures
        0 <= nul_position(buffer) <= buffer.len(),
        forall|i: int| 0 <= i < nul_position(buffer) ==> buffer[i] != 0,
        nul_position(buffer) < buffer.len() ==> buffer[nul_position(buffer)] == 0,
    decreases buffer.len(),
{
    if !(buffer.len() == 0 || buffer[0] == 0) {
        let rest = buffer.subrange(1, buffer.len() as int);
        nul_position_is_first(rest);
        assert forall|i: int| 0 <= i < nul_position(buffer) implies buffer[i] != 0 by {
            if i > 0 {
                assert(buffer[i] == rest[i - 1]);
            }
        }
        if nul_position(buffer) < buffer.len() {
            assert(buffer[nul_position(buffer)] == rest[nul_position(rest)]);
        }
    }
}

/// The text that a lossy UTF-8 decoder makes of `bytes`.
pub uninterp spec fn utf8_lossy(bytes: Seq<u8>) -> Seq<char>;

/// `String::from_utf8_lossy`, with the result made an owned string. Bytes
/// that are valid UTF-8 decode to the text they encode; for other bytes the
/// result is whatever the decoder makes of them, which depends on the bytes
/// alone.
#[verifier::external_body]
fn decode_lossy(bytes: &[u8]) -> (text: String)
    ensures
        text@ == utf8_lossy(bytes@),
        valid_utf8(bytes@) ==> text@ == decode_utf8(bytes@),
{
    String::from_utf8_lossy(bytes).into_owned()
}

/// The text in a buffer that the host has filled with a NUL-terminated
/// string: the bytes before the first NUL, decoded leniently. `None` if the
/// buffer holds no NUL, so that nothing terminates the string.
pub fn buffer_text(buffer: &[u8]) -> (text: Option<String>)
    ensures
        text is Some <==> nul_position(buffer@) < buffer@.len(),
        text matches Some(t) ==> {
            let bytes = buffer@.subrange(0, nul_position(buffer@));
            &&& t@ == utf8_lossy(bytes)
            &&& valid_utf8(bytes) ==> t@ == decode_utf8(bytes)
        },
{
    let mut at: usize = 0;
    assert(buffer@.subrange(0, buffer@.len() as int) =~= buffer@);
    while at < buffer.len() && buffer[at] != 0
        invariant
            at <= buffer@.len(),
            nul_position(buffer@) == at + nul_position(
                buffer@.subrange(at as int, buffer@.len() as int),
            ),
        decreases buffer@.len() - at,
    {
        let ghost tail = buffer@.subrange(at as int, buffer@.len() as int);
        assert(tail[0] == buffer@[at as int]);
        assert(tail.subrange(1, tail.len() as int) =~= buffer@.subrange(
            at as int + 1,
            buffer@.len() as int,
        ));
        at += 1;
    }
    let ghost tail = buffer@.subrange(at as int, buffer@.len() as int);
    if at == buffer.len() {
        assert(tail.len() == 0);
        None
    } else {
        assert(tail[0] == buffer@[at as int]);
        Some(decode_lossy(vstd::slice::slice_subrange(buffer, 0, at)))
    }
}

} // verus!
