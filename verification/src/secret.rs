//! Wiping secrets from memory, and turning secret bytes into text.

use vstd::prelude::*;

verus! {

/// Wipes a string with `zeroize::Zeroize::zeroize`, which overwrites its bytes and leaves it
/// empty.
#[verifier::external_body]
pub(crate) fn wipe_string(s: &mut String)
    ensures
        final(s)@.len() == 0,
{
    zeroize::Zeroize::zeroize(s)
}

/// Wipes a vector of bytes with `zeroize::Zeroize::zeroize`, which overwrites its bytes and
/// leaves it empty.
#[verifier::external_body]
pub(crate) fn wipe_bytes(v: &mut Vec<u8>)
    ensures
        final(v)@.len() == 0,
{
    zeroize::Zeroize::zeroize(v)
}

/// What the standard library says of bytes that are not UTF-8.
pub uninterp spec fn utf8_error_text(bytes: Seq<u8>) -> Seq<char>;

/// Turns bytes into text with `String::from_utf8`, which succeeds exactly on valid UTF-8 and
/// gives the text that the bytes encode. On failure the error holds the bytes as they were, and
/// its wording is a function of the bytes alone.
#[verifier::external_body]
pub(crate) fn decode_utf8_text(bytes: Vec<u8>) -> (r: Result<String, (String, Vec<u8>)>)
    ensures
        match r {
            Ok(s) => vstd::utf8::valid_utf8(bytes@) && s@ == vstd::utf8::decode_utf8(bytes@),
            Err((text, rest)) => {
                &&& !vstd::utf8::valid_utf8(bytes@)
                &&& text@ == utf8_error_text(bytes@)
                &&& rest@ == bytes@
            },
        },
{
    String::from_utf8(bytes).map_err(|e| (e.utf8_error().to_string(), e.into_bytes()))
}

/// The text that bytes encode, or a message that begins with `what` and says why they encode
/// none.
pub open spec fn decoded_text(bytes: Seq<u8>, what: Seq<char>) -> Result<Seq<char>, Seq<char>> {
    if vstd::utf8::valid_utf8(bytes) {
        Ok(vstd::utf8::decode_utf8(bytes))
    } else {
        Err(what + utf8_error_text(bytes))
    }
}

/// Text survives being bytes: the bytes of any text are read as that text. What is no text is
/// refused with the given beginning.
pub proof fn law_text_survives_bytes(text: Seq<char>, bytes: Seq<u8>, what: Seq<char>)
    ensures
        decoded_text(vstd::utf8::encode_utf8(text), what) == Ok::<Seq<char>, Seq<char>>(text),
        !vstd::utf8::valid_utf8(bytes) ==> (decoded_text(bytes, what) matches Err(e)
            && what.is_prefix_of(e) && e.skip(what.len() as int) == utf8_error_text(bytes)),
        vstd::utf8::valid_utf8(bytes) ==> decoded_text(bytes, what) is Ok,
{
    vstd::utf8::encode_utf8_valid_utf8(text);
    vstd::utf8::encode_utf8_decode_utf8(text);
    if !vstd::utf8::valid_utf8(bytes) {
        let e = what + utf8_error_text(bytes);
        assert(e.take(what.len() as int) =~= what);
        assert(e.skip(what.len() as int) =~= utf8_error_text(bytes));
    }
}

/// Whether a result is the expected one, both taken by their text.
pub open spec fn is_text_outcome(
    r: Result<String, String>,
    expected: Result<Seq<char>, Seq<char>>,
) -> bool {
    match expected {
        Ok(text) => r matches Ok(s) && s@ == text,
        Err(text) => r matches Err(e) && e@ == text,
    }
}

/// A result is the expected one exactly if both are successes or both are failures, and their texts
/// are the same.
pub proof fn law_text_outcome(r: Result<String, String>, expected: Result<Seq<char>, Seq<char>>)
    ensures
        is_text_outcome(r, expected) <==> {
            ||| (r matches Ok(s) && expected == Ok::<Seq<char>, Seq<char>>(s@))
            ||| (r matches Err(e) && expected == Err::<Seq<char>, Seq<char>>(e@))
        },
{
}

/// Turns secret bytes into text. None of the bytes stay behind: they become the text, or they are
/// wiped.
pub fn secret_text(bytes: &mut Vec<u8>, what: &str) -> (r: Result<String, String>)
    ensures
        is_text_outcome(r, decoded_text(old(bytes)@, what@)),
        final(bytes)@.len() == 0,
{
    let mut taken: Vec<u8> = Vec::new();
    std::mem::swap(&mut taken, bytes);
    match decode_utf8_text(taken) {
        Ok(s) => Ok(s),
        Err((text, rest)) => {
            let mut rest: Vec<u8> = rest;
            wipe_bytes(&mut rest);
            let mut e: String = what.to_owned();
            e.append(text.as_str());
            Err(e)
        },
    }
}

} // verus!
