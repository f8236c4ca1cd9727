//! The C-string side of the engine's interface: strings handed to the engine
//! are NUL-terminated UTF-8 byte strings, and strings the engine writes back
//! are read up to their first NUL byte.
use vstd::prelude::*;
use vstd::utf8::*;

use crate::error::EngineError;

verus! {

/// True when no byte of `bytes` is the NUL byte.
pub open spec fn no_nul(bytes: Seq<u8>) -> bool {
    forall|i: int| 0 <= i < bytes.len() ==> #[trigger] bytes[i] != 0u8
}

/// The NUL-terminated encoding of `chars`: its UTF-8 bytes followed by one NUL.
pub open spec fn c_string_bytes(chars: Seq<char>) -> Seq<u8> {
    encode_utf8(chars).push(0u8)
}

/// The bytes of a C string stored at the start of `buffer`: everything before
/// the first NUL byte (all of `buffer` when it holds none).
pub open spec fn c_string_contents(buffer: Seq<u8>) -> Seq<u8>
    decreases buffer.len(),
{
    if buffer.len() == 0 || buffer[0] == 0u8 {
        Seq::empty()
    } else {
        seq![buffer[0]] + c_string_contents(buffer.drop_first())
    }
}

proof fn lemma_no_nul_concat(a: Seq<u8>, b: Seq<u8>)
    ensures
        no_nul(a + b) <==> (no_nul(a) && no_nul(b)),
{
    if no_nul(a + b) {
        assert forall|i: int| 0 <= i < a.len() implies #[trigger] a[i] != 0u8 by {
            assert((a + b)[i] == a[i]);
        }
        assert forall|i: int| 0 <= i < b.len() implies #[trigger] b[i] != 0u8 by {
            assert((a + b)[a.len() + i] == b[i]);
        }
    }
    if no_nul(a) && no_nul(b) {
        assert forall|i: int| 0 <= i < (a + b).len() implies #[trigger] (a + b)[i] != 0u8 by {
            if i < a.len() {
                assert((a + b)[i] == a[i]);
            } else {
                assert((a + b)[i] == b[i - a.len()]);
            }
        }
    }
}

/// Only the NUL character is encoded with a NUL byte.
proof fn lemma_encode_scalar_no_nul(c: char)
    ensures
        no_nul(encode_scalar(c as u32)) <==> c != '\0',
{
    let s = c as u32;
    assert(is_scalar(s));
    if has_width_1_encoding(s) {
        assert(s <= 0x7f ==> (((s & 0x7f) as u8 == 0u8) <==> s == 0)) by (bit_vector);
        assert(encode_scalar(s)[0] == leading_byte_width_1(s));
        if s == 0 {
            assert(c == '\0');
        } else {
            assert(c != '\0');
        }
    } else {
        assert((0xC0u8 | ((s >> 6u32) & 0x1Fu32) as u8) != 0u8) by (bit_vector);
        assert((0xE0u8 | ((s >> 12u32) & 0x0Fu32) as u8) != 0u8) by (bit_vector);
        assert((0xF0u8 | ((s >> 18u32) & 0x7u32) as u8) != 0u8) by (bit_vector);
        assert((0x80u8 | (s & 0x3Fu32) as u8) != 0u8) by (bit_vector);
        assert((0x80u8 | ((s >> 6u32) & 0x3Fu32) as u8) != 0u8) by (bit_vector);
        assert((0x80u8 | ((s >> 12u32) & 0x3Fu32) as u8) != 0u8) by (bit_vector);
        assert(s != 0);
        assert(c != '\0');
    }
}

/// The UTF-8 encoding of a character sequence holds a NUL byte exactly when
/// the sequence holds the NUL character.
pub proof fn lemma_encode_utf8_no_nul(chars: Seq<char>)
    ensures
        no_nul(encode_utf8(chars)) <==> !chars.contains('\0'),
    decreases chars.len(),
{
    if chars.len() == 0 {
        assert(!chars.contains('\0'));
    } else {
        let rest = chars.drop_first();
        lemma_encode_utf8_no_nul(rest);
        lemma_encode_scalar_no_nul(chars[0]);
        lemma_no_nul_concat(encode_scalar(chars[0] as u32), encode_utf8(rest));
        if chars.contains('\0') {
            let k = choose|k: int| 0 <= k < chars.len() && chars[k] == '\0';
            if k > 0 {
                assert(rest[k - 1] == '\0');
            }
        }
        if rest.contains('\0') {
            let k = choose|k: int| 0 <= k < rest.len() && rest[k] == '\0';
            assert(chars[k + 1] == '\0');
        }
        if chars[0] == '\0' {
            assert(chars.contains('\0'));
        }
    }
}

/// Encodes `s` as the NUL-terminated byte string that the engine's C interface
/// takes. A string with an interior NUL character has no such encoding.
pub fn c_string(s: &str) -> (r: Result<Vec<u8>, EngineError>)
    ensures
        r is Ok <==> !s@.contains('\0'),
        r matches Ok(bytes) ==> bytes@ == c_string_bytes(s@),
        r matches Err(e) ==> e == EngineError::NulInString,
{
    let raw = s.as_bytes();
    let mut out: Vec<u8> = Vec::new();
    let mut i: usize = 0;
    proof {
        lemma_encode_utf8_no_nul(s@);
    }
    while i < raw.len()
        invariant
            raw@ == encode_utf8(s@),
            no_nul(raw@) <==> !s@.contains('\0'),
            i <= raw@.len(),
            out@ == raw@.subrange(0, i as int),
            forall|j: int| 0 <= j < i ==> raw@[j] != 0u8,
        decreases raw@.len() - i,
    {
        if raw[i] == 0 {
            assert(raw@[i as int] == 0u8);
            assert(!no_nul(raw@));
            return Err(EngineError::NulInString);
        }
        out.push(raw[i]);
        i = i + 1;
        assert(out@ == raw@.subrange(0, i as int));
    }
    assert(out@ == raw@);
    assert(no_nul(raw@));
    out.push(0u8);
    Ok(out)
}

/// `std::str::Utf8Error`, the reason `std::str::from_utf8` gives for
/// refusing a byte string; carried through opaquely.
#[verifier::external_type_specification]
#[verifier::external_body]
pub struct ExUtf8Error(std::str::Utf8Error);

/// Calls `std::str::from_utf8`. As its documentation says, it succeeds
/// exactly on valid UTF-8 input, and then the string it returns holds the
/// characters that the bytes encode.
#[verifier::external_body]
fn str_from_utf8(bytes: &[u8]) -> (r: Result<&str, std::str::Utf8Error>)
    ensures
        r is Ok <==> valid_utf8(bytes@),
        r matches Ok(s) ==> s@ == decode_utf8(bytes@),
{
    std::str::from_utf8(bytes)
}

/// Calls `Display::fmt` of `std::str::Utf8Error` through `format!`: the
/// text that explains why the bytes are not UTF-8. Nothing is stated of the
/// text.
#[verifier::external_body]
fn utf8_error_text(error: &std::str::Utf8Error) -> String {
    format!("{}", error)
}

/// When `buffer` holds a NUL byte, the contents of the C string it starts
/// with are the bytes before the first NUL.
pub proof fn lemma_c_string_contents_prefix(buffer: Seq<u8>, n: int)
    requires
        0 <= n < buffer.len(),
        buffer[n] == 0u8,
        forall|j: int| 0 <= j < n ==> buffer[j] != 0u8,
    ensures
        c_string_contents(buffer) == buffer.subrange(0, n),
    decreases n,
{
    if n == 0 {
        assert(buffer.subrange(0, 0) =~= Seq::<u8>::empty());
    } else {
        let rest = buffer.drop_first();
        assert(buffer[0] != 0u8);
        assert forall|j: int| 0 <= j < n - 1 implies rest[j] != 0u8 by {
            assert(rest[j] == buffer[j + 1]);
        }
        lemma_c_string_contents_prefix(rest, n - 1);
        assert(seq![buffer[0]] + rest.subrange(0, n - 1) =~= buffer.subrange(0, n));
    }
}

/// Reads the string that the engine wrote into `buffer` as a C string: the
/// UTF-8 text before the first NUL byte.
pub fn string_from_c_buffer(buffer: &[u8]) -> (r: Result<String, EngineError>)
    requires
        buffer@.contains(0u8),
    ensures
        r is Ok <==> valid_utf8(c_string_contents(buffer@)),
        r matches Ok(s) ==> s@ == decode_utf8(c_string_contents(buffer@)),
        r matches Err(e) ==> e is InvalidSession,
{
    let mut contents: Vec<u8> = Vec::new();
    let mut i: usize = 0;
    while buffer[i] != 0u8
        invariant
            buffer@.contains(0u8),
            i < buffer@.len(),
            contents@ == buffer@.subrange(0, i as int),
            forall|j: int| 0 <= j < i ==> buffer@[j] != 0u8,
        decreases buffer@.len() - i,
    {
        contents.push(buffer[i]);
        i = i + 1;
        assert(contents@ == buffer@.subrange(0, i as int));
        proof {
            if i == buffer@.len() {
                let k = choose|k: int| 0 <= k < buffer@.len() && buffer@[k] == 0u8;
                assert(buffer@[k] != 0u8);
            }
        }
    }
    proof {
        lemma_c_string_contents_prefix(buffer@, i as int);
    }
    match str_from_utf8(contents.as_slice()) {
        Ok(text) => Ok(text.to_owned()),
        Err(error) => Err(EngineError::InvalidSession { detail: utf8_error_text(&error) }),
    }
}

/// What is written as a C string reads back as the string itself: in a
/// buffer that starts with the NUL-terminated encoding of `chars`, whatever
/// follows, the C string's contents are the UTF-8 bytes of `chars`, which
/// are valid and decode to `chars`.
pub proof fn lemma_c_string_round_trip(chars: Seq<char>, tail: Seq<u8>)
    requires
        !chars.contains('\0'),
    ensures
        (c_string_bytes(chars) + tail).contains(0u8),
        c_string_contents(c_string_bytes(chars) + tail) == encode_utf8(chars),
        valid_utf8(c_string_contents(c_string_bytes(chars) + tail)),
        decode_utf8(c_string_contents(c_string_bytes(chars) + tail)) == chars,
{
    let bytes = c_string_bytes(chars) + tail;
    let n = encode_utf8(chars).len() as int;
    lemma_encode_utf8_no_nul(chars);
    assert(bytes[n] == 0u8);
    assert forall|j: int| 0 <= j < n implies bytes[j] != 0u8 by {
        assert(bytes[j] == encode_utf8(chars)[j]);
    }
    lemma_c_string_contents_prefix(bytes, n);
    assert(bytes.subrange(0, n) =~= encode_utf8(chars));
    encode_utf8_valid_utf8(chars);
    encode_utf8_decode_utf8(chars);
}

} // verus!
