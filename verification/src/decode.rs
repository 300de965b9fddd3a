//! Strict UTF-8 decoding of the bytes that the host hands over.
//!
//! What counts as valid UTF-8, and which text a valid byte string decodes
//! to, is taken from `vstd::utf8`: [`valid_utf8`] and [`decode_utf8`].
use vstd::prelude::*;
use vstd::string::*;
use vstd::utf8::*;

verus! {

/// The error of `core::str::from_utf8`. It is carried through and never
/// looked into: the pack tells the host only that decoding failed.
#[verifier::external_type_specification]
#[verifier::external_body]
pub struct ExUtf8Error(core::str::Utf8Error);

/// Trusted, not proved: the contract of `core::str::from_utf8`.
///
/// The call succeeds exactly on the byte strings that are valid UTF-8 from
/// the first byte to the last, and the string slice it then returns is made
/// of the very same bytes. Nothing is claimed about the error value.
pub assume_specification[ core::str::from_utf8 ](v: &[u8]) -> (res: Result<
    &str,
    core::str::Utf8Error,
>)
    ensures
        res is Ok <==> valid_utf8(v@),
        res matches Ok(s) ==> s.spec_bytes() == v@,
;

/// Decodes the whole of `bytes` as UTF-8 text, or turns them down as a whole.
///
/// There is no partial or lossy mode and nothing is trimmed: the answer is
/// `Some` exactly when every byte belongs to a well-formed encoding, and the
/// text is then the one that encodes to `bytes`. No terminator is looked for;
/// a zero byte is an ordinary character.
pub fn decode_text<'a>(bytes: &'a [u8]) -> (text: Option<&'a str>)
    ensures
        text is Some <==> valid_utf8(bytes@),
        text matches Some(s) ==> s@ == decode_utf8(bytes@) && s.spec_bytes() == bytes@,
{
    match core::str::from_utf8(bytes) {
        Ok(s) => {
            proof {
                encode_utf8_decode_utf8(s@);
            }
            Some(s)
        },
        Err(_) => None,
    }
}

/// Plain ASCII is always valid, and decodes byte for byte: each byte below
/// `0x80` is the character with that number.
pub proof fn lemma_ascii_decodes_bytewise(bytes: Seq<u8>)
    requires
        forall|i: int| 0 <= i < bytes.len() ==> bytes[i] <= 0x7f,
    ensures
        valid_utf8(bytes),
        decode_utf8(bytes) == Seq::new(bytes.len(), |i: int| bytes[i] as char),
{
    let text = Seq::new(bytes.len(), |i: int| bytes[i] as char);
    is_ascii_chars_encode_utf8(text);
    assert(encode_utf8(text) =~= bytes);
    encode_utf8_valid_utf8(text);
    encode_utf8_decode_utf8(text);
}

} // verus!
