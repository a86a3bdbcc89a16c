use vstd::prelude::*;

use crate::error::Error;
use crate::error::ErrorReason;

verus! {

/// True of a UTF-8 continuation byte (`10xxxxxx`).
pub open spec fn is_utf8_cont(b: u8) -> bool {
    0x80 <= b < 0xC0
}

/// How many bytes an encoded scalar whose lead byte is `b` occupies.
///
/// A stray continuation byte is classed as length one here;
/// `utf8_encoding_valid` then rejects it.
pub open spec fn utf8_char_len(b: u8) -> int {
    if b < 0xC0 {
        1
    } else if b < 0xE0 {
        2
    } else if b < 0xF0 {
        3
    } else {
        4
    }
}

/// True of a byte sequence that is exactly one well-formed UTF-8 scalar:
/// the shortest-form ranges of RFC 3629, so no overlong forms, no encoded
/// surrogate code points, and nothing above U+10FFFF.
pub open spec fn utf8_encoding_valid(s: Seq<u8>) -> bool {
    if s.len() == 1 {
        s[0] < 0x80
    } else if s.len() == 2 {
        0xC2 <= s[0] < 0xE0 && is_utf8_cont(s[1])
    } else if s.len() == 3 {
        &&& 0xE0 <= s[0] < 0xF0
        &&& is_utf8_cont(s[1])
        &&& is_utf8_cont(s[2])
        &&& (s[0] == 0xE0 ==> s[1] >= 0xA0)
        &&& (s[0] == 0xED ==> s[1] <= 0x9F)
    } else if s.len() == 4 {
        &&& 0xF0 <= s[0] <= 0xF4
        &&& is_utf8_cont(s[1])
        &&& is_utf8_cont(s[2])
        &&& is_utf8_cont(s[3])
        &&& (s[0] == 0xF0 ==> s[1] >= 0x90)
        &&& (s[0] == 0xF4 ==> s[1] <= 0x8F)
    } else {
        false
    }
}

/// True of byte sequences that are well-formed UTF-8: a concatenation of
/// well-formed encoded scalars.
pub open spec fn utf8_seq_valid(s: Seq<u8>) -> bool
    decreases s.len(),
{
    if s.len() == 0 {
        true
    } else {
        let n = utf8_char_len(s[0]);
        &&& n <= s.len()
        &&& utf8_encoding_valid(s.subrange(0, n))
        &&& utf8_seq_valid(s.skip(n))
    }
}

/// A sequence of bytes all below 0x80 is well-formed UTF-8 (it is plain
/// ASCII, one scalar per byte).
pub proof fn lemma_ascii_is_valid_utf8(s: Seq<u8>)
    requires
        forall|k: int| 0 <= k < s.len() ==> s[k] < 0x80,
    ensures
        utf8_seq_valid(s),
    decreases s.len(),
{
    if s.len() > 0 {
        assert(s.subrange(0, 1).len() == 1);
        assert(s.subrange(0, 1)[0] == s[0]);
        lemma_ascii_is_valid_utf8(s.skip(1));
    }
}

/// Decides whether `b` is a UTF-8 continuation byte.
fn utf8_cont(b: u8) -> (r: bool)
    ensures
        r == is_utf8_cont(b),
{
    0x80 <= b && b < 0xC0
}

/// Decides whether `bytes` is well-formed UTF-8 — the validation every
/// text-returning accessor applies to bytes from the native layer.
pub fn is_valid_utf8(bytes: &Vec<u8>) -> (r: bool)
    ensures
        r == utf8_seq_valid(bytes@),
{
    let n = bytes.len();
    let mut i: usize = 0;
    proof {
        assert(bytes@.skip(0) =~= bytes@);
    }
    while i < n
        invariant
            i <= n,
            n == bytes@.len(),
            utf8_seq_valid(bytes@) == utf8_seq_valid(bytes@.skip(i as int)),
        decreases n - i,
    {
        let ghost s = bytes@.skip(i as int);
        let b0 = bytes[i];
        assert(s[0] == bytes@[i as int]);
        let len: usize = if b0 < 0xC0 {
            1
        } else if b0 < 0xE0 {
            2
        } else if b0 < 0xF0 {
            3
        } else {
            4
        };
        assert(len as int == utf8_char_len(s[0]));
        if n - i < len {
            // The final scalar is truncated.
            assert(utf8_char_len(s[0]) > s.len());
            assert(!utf8_seq_valid(s));
            return false;
        }
        let ghost enc = s.subrange(0, len as int);
        assert(enc.len() == len as int);
        assert(forall|k: int| 0 <= k < len as int ==> enc[k] == bytes@[i + k]);
        let ok: bool = if len == 1 {
            b0 < 0x80
        } else if len == 2 {
            0xC2 <= b0 && utf8_cont(bytes[i + 1])
        } else if len == 3 {
            let b1 = bytes[i + 1];
            utf8_cont(b1) && utf8_cont(bytes[i + 2]) && (b0 != 0xE0 || b1 >= 0xA0) && (b0 != 0xED
                || b1 <= 0x9F)
        } else {
            let b1 = bytes[i + 1];
            b0 <= 0xF4 && utf8_cont(b1) && utf8_cont(bytes[i + 2]) && utf8_cont(bytes[i + 3]) && (b0
                != 0xF0 || b1 >= 0x90) && (b0 != 0xF4 || b1 <= 0x8F)
        };
        assert(ok == utf8_encoding_valid(enc));
        if !ok {
            assert(!utf8_seq_valid(s));
            return false;
        }
        assert(utf8_seq_valid(s) == utf8_seq_valid(s.skip(len as int)));
        assert(s.skip(len as int) =~= bytes@.skip(i as int + len as int));
        i = i + len;
    }
    assert(bytes@.skip(i as int) =~= Seq::<u8>::empty());
    true
}

/// The code point carried by one well-formed UTF-8 scalar encoding: the
/// payload bits of the lead byte and of each continuation byte, in order.
pub open spec fn utf8_scalar_value(s: Seq<u8>) -> int {
    if s.len() == 1 {
        s[0] as int
    } else if s.len() == 2 {
        (s[0] as int - 0xC0) * 0x40 + (s[1] as int - 0x80)
    } else if s.len() == 3 {
        (s[0] as int - 0xE0) * 0x1000 + (s[1] as int - 0x80) * 0x40 + (s[2] as int - 0x80)
    } else {
        (s[0] as int - 0xF0) * 0x40000 + (s[1] as int - 0x80) * 0x1000 + (s[2] as int - 0x80)
            * 0x40 + (s[3] as int - 0x80)
    }
}

/// The characters that well-formed UTF-8 bytes decode to: one character
/// per encoded scalar, in order.  (On ill-formed bytes the value is
/// immaterial; nothing is stated of it.)
pub open spec fn decoded_chars(s: Seq<u8>) -> Seq<char>
    decreases s.len(),
{
    if s.len() == 0 {
        Seq::empty()
    } else {
        let n = if utf8_char_len(s[0]) <= s.len() {
            utf8_char_len(s[0])
        } else {
            s.len() as int
        };
        seq![utf8_scalar_value(s.subrange(0, n)) as char] + decoded_chars(s.skip(n))
    }
}

/// UTF-8 is ASCII-transparent: bytes all below 0x80 decode to themselves,
/// character for character.
pub proof fn lemma_ascii_decodes_to_itself(s: Seq<u8>)
    requires
        forall|k: int| 0 <= k < s.len() ==> s[k] < 0x80,
    ensures
        decoded_chars(s) == s.map_values(|b: u8| b as char),
    decreases s.len(),
{
    if s.len() == 0 {
        assert(decoded_chars(s) =~= s.map_values(|b: u8| b as char));
    } else {
        lemma_ascii_decodes_to_itself(s.skip(1));
        assert(s.subrange(0, 1).len() == 1);
        assert(s.subrange(0, 1)[0] == s[0]);
        assert(decoded_chars(s) =~= s.map_values(|b: u8| b as char));
    }
}

/// Relies on `String::from_utf8`: on bytes that are well-formed UTF-8 it
/// returns exactly the string those bytes encode, one character per
/// encoded scalar.
#[verifier::external_body]
fn utf8_to_string(bytes: Vec<u8>) -> (r: String)
    requires
        utf8_seq_valid(bytes@),
    ensures
        r@ == decoded_chars(bytes@),
{
    String::from_utf8(bytes).unwrap()
}

/// Turns the optional bytes of a native C string into validated text.
///
/// `None` stands for a null pointer handed back by a native getter; `Some`
/// carries the bytes of the string, without the terminating NUL.  The
/// result is the decoded text, or the typed error saying which of the two
/// boundary failures occurred.
pub fn cstr_to_string(bytes: Option<Vec<u8>>) -> (r: Result<String, Error>)
    ensures
        bytes is None ==> (r matches Err(e) && e.spec_reason() == ErrorReason::NullPtr),
        bytes matches Some(b) ==> (if utf8_seq_valid(b@) {
            r matches Ok(s) && s@ == decoded_chars(b@)
        } else {
            r matches Err(e) && e.spec_reason() == ErrorReason::Utf8Error
        }),
        bytes matches Some(b) ==> ((forall|k: int| 0 <= k < b@.len() ==> b@[k] < 0x80) ==> (
        r matches Ok(s) && s@ == b@.map_values(|x: u8| x as char))),
{
    match bytes {
        None => Err(Error::null_ptr()),
        Some(b) => {
            if is_valid_utf8(&b) {
                proof {
                    if forall|k: int| 0 <= k < b@.len() ==> b@[k] < 0x80 {
                        lemma_ascii_is_valid_utf8(b@);
                        lemma_ascii_decodes_to_itself(b@);
                    }
                }
                Ok(utf8_to_string(b))
            } else {
                proof {
                    if forall|k: int| 0 <= k < b@.len() ==> b@[k] < 0x80 {
                        lemma_ascii_is_valid_utf8(b@);
                    }
                }
                Err(Error::utf8_error())
            }
        },
    }
}

} // verus!
