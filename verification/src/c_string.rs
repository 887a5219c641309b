//! Marshalling of a name into the zero-terminated form that a foreign
//! routine reads.

use vstd::prelude::*;
use vstd::slice::slice_to_vec;
use vstd::utf8::{
    encode_scalar, encode_utf8, has_width_1_encoding, is_scalar, last_continuation_byte,
    leading_byte_width_1, leading_byte_width_2, leading_byte_width_3, leading_byte_width_4,
    second_last_continuation_byte, third_last_continuation_byte,
};

verus! {

/// Whether `bytes` holds a zero byte anywhere.
pub open spec fn has_nul(bytes: Seq<u8>) -> bool {
    exists|i: int| 0 <= i < bytes.len() && bytes[i] == 0
}

/// Whether `at` is the position of the first zero byte of `bytes`.
pub open spec fn is_first_nul(bytes: Seq<u8>, at: int) -> bool {
    &&& 0 <= at < bytes.len()
    &&& bytes[at] == 0
    &&& forall|i: int| 0 <= i < at ==> bytes[i] != 0
}

/// The zero-terminated form of `bytes`.
pub open spec fn terminated(bytes: Seq<u8>) -> Seq<u8> {
    bytes.push(0)
}

/// A reader that stops at the first zero byte of `terminated(bytes)` has
/// read all of `bytes`, and nothing else, exactly when `bytes` holds no zero
/// byte of its own.
pub proof fn terminator_is_first_nul(bytes: Seq<u8>)
    ensures
        terminated(bytes).len() == bytes.len() + 1,
        terminated(bytes).drop_last() == bytes,
        !has_nul(bytes) <==> is_first_nul(terminated(bytes), bytes.len() as int),
{
    let buffer = terminated(bytes);
    assert(buffer.drop_last() =~= bytes);
    if has_nul(bytes) {
        let i = choose|i: int| 0 <= i < bytes.len() && bytes[i] == 0;
        assert(buffer[i] == 0);
    } else {
        assert forall|i: int| 0 <= i < bytes.len() implies buffer[i] != 0 by {
            assert(buffer[i] == bytes[i]);
        }
    }
}

/// Of the bytes that encode a scalar value, only the single byte that
/// encodes the value zero is zero.
proof fn encoded_bytes_are_nonzero(scalar: u32)
    by (bit_vector)
    ensures
        has_width_1_encoding(scalar) ==> (leading_byte_width_1(scalar) == 0 <==> scalar == 0),
        leading_byte_width_2(scalar) != 0,
        leading_byte_width_3(scalar) != 0,
        leading_byte_width_4(scalar) != 0,
        last_continuation_byte(scalar) != 0,
        second_last_continuation_byte(scalar) != 0,
        third_last_continuation_byte(scalar) != 0,
{
}

/// The encoding of one character holds a zero byte exactly when the
/// character is the one of code zero.
proof fn nul_in_encoded_char(c: char)
    ensures
        has_nul(encode_scalar(c as u32)) <==> c == '\0',
{
    let scalar = c as u32;
    let bytes = encode_scalar(scalar);
    encoded_bytes_are_nonzero(scalar);
    assert(is_scalar(scalar));
    if c == '\0' {
        assert(bytes[0] == 0);
    } else {
        assert(scalar != 0);
        assert forall|i: int| 0 <= i < bytes.len() implies bytes[i] != 0 by {}
    }
}

/// A zero byte of a concatenation lies in one of its two parts.
proof fn nul_in_concatenation(front: Seq<u8>, back: Seq<u8>)
    ensures
        has_nul(front + back) <==> has_nul(front) || has_nul(back),
{
    let whole = front + back;
    if has_nul(front) {
        let i = choose|i: int| 0 <= i < front.len() && front[i] == 0;
        assert(whole[i] == 0);
    }
    if has_nul(back) {
        let i = choose|i: int| 0 <= i < back.len() && back[i] == 0;
        assert(whole[front.len() + i] == 0);
    }
    if has_nul(whole) {
        let i = choose|i: int| 0 <= i < whole.len() && whole[i] == 0;
        if i < front.len() {
            assert(front[i] == 0);
        } else {
            assert(back[i - front.len()] == 0);
        }
    }
}

/// The bytes of a text hold a zero byte exactly when the text holds the
/// character of code zero. No other character has a zero byte in its
/// encoding.
pub proof fn nul_byte_iff_nul_char(chars: Seq<char>)
    ensures
        has_nul(encode_utf8(chars)) <==> chars.contains('\0'),
    decreases chars.len(),
{
    if chars.len() == 0 {
        assert(encode_utf8(chars).len() == 0);
    } else {
        let rest = chars.drop_first();
        nul_in_encoded_char(chars[0]);
        nul_in_concatenation(encode_scalar(chars[0] as u32), encode_utf8(rest));
        nul_byte_iff_nul_char(rest);
        if chars.contains('\0') {
            let i = choose|i: int| 0 <= i < chars.len() && chars[i] == '\0';
            if i > 0 {
                assert(rest[i - 1] == '\0');
            }
        }
        if rest.contains('\0') {
            let i = choose|i: int| 0 <= i < rest.len() && rest[i] == '\0';
            assert(chars[i + 1] == '\0');
        }
    }
}

/// Why a name could not be marshalled: it holds a zero byte, which a foreign
/// reader would take for its end. The position recorded is always that of
/// the first zero byte of the bytes recorded.
#[derive(Debug)]
pub struct NulError {
    position: usize,
    bytes: Vec<u8>,
}

/// What a [`NulError`] records.
pub struct NulErrorView {
    /// Where the first zero byte stands.
    pub position: int,
    /// The bytes that were to be marshalled.
    pub bytes: Seq<u8>,
}

impl View for NulError {
    type V = NulErrorView;

    closed spec fn view(&self) -> NulErrorView {
        NulErrorView { position: self.position as int, bytes: self.bytes@ }
    }
}

impl NulError {
    #[verifier::type_invariant]
    spec fn position_is_first_nul(self) -> bool {
        is_first_nul(self.bytes@, self.position as int)
    }

    /// The position of the first zero byte in the refused bytes.
    pub fn nul_position(&self) -> (position: usize)
        ensures
            position == self@.position,
            is_first_nul(self@.bytes, position as int),
    {
        proof {
            use_type_invariant(self);
        }
        self.position
    }

    /// The bytes that were refused.
    pub fn as_bytes(&self) -> (bytes: &[u8])
        ensures
            bytes@ == self@.bytes,
    {
        self.bytes.as_slice()
    }

    /// Gives back the bytes that were refused.
    pub fn into_vec(self) -> (bytes: Vec<u8>)
        ensures
            bytes@ == self@.bytes,
    {
        self.bytes
    }
}

/// Scans `bytes` for its first zero byte.
pub fn find_nul(bytes: &[u8]) -> (found: Option<usize>)
    ensures
        match found {
            Some(at) => is_first_nul(bytes@, at as int),
            None => !has_nul(bytes@),
        },
{
    let mut i: usize = 0;
    while i < bytes.len()
        invariant
            i <= bytes.len(),
            forall|j: int| 0 <= j < i ==> bytes@[j] != 0,
        decreases bytes.len() - i,
    {
        if bytes[i] == 0 {
            return Some(i);
        }
        i += 1;
    }
    None
}

/// Marshals `bytes` for a foreign reader: a copy with a zero byte behind it,
/// unless `bytes` holds a zero byte itself. In that case the bytes come back
/// with the place of their first zero byte.
pub fn to_c_string(bytes: &[u8]) -> (result: Result<Vec<u8>, NulError>)
    ensures
        result is Err <==> has_nul(bytes@),
        result matches Ok(buffer) ==> {
            &&& buffer@ == terminated(bytes@)
            &&& is_first_nul(buffer@, bytes@.len() as int)
        },
        result matches Err(error) ==> {
            &&& error@.bytes == bytes@
            &&& is_first_nul(bytes@, error@.position)
        },
{
    let mut buffer = slice_to_vec(bytes);
    match find_nul(bytes) {
        Some(position) => Err(NulError { position, bytes: buffer }),
        None => {
            buffer.push(0u8);
            proof {
                terminator_is_first_nul(bytes@);
            }
            Ok(buffer)
        },
    }
}

} // verus!
