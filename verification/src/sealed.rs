//! Secret text, wiping, and lossy decoding: the calls that leave this crate.

use secrecy::ExposeSecret;
use secrecy::SecretString;
use vstd::prelude::*;
use vstd::utf8::*;
use zeroize::Zeroize;

verus! {

/// Text held in a `secrecy::SecretString`: its `Debug` output shows a
/// placeholder in place of the text, and its memory is zeroed when it is
/// dropped.
#[verifier::external_body]
#[derive(Debug)]
pub struct SecretText {
    inner: SecretString,
}

/// The text that a `SecretText` holds: what `expose_secret` hands out.
pub uninterp spec fn secret_chars(secret: SecretText) -> Seq<char>;

impl View for SecretText {
    type V = Seq<char>;

    open spec fn view(&self) -> Seq<char> {
        secret_chars(*self)
    }
}

/// `SecretString::from(String)`: moves the text into a secret box. The box
/// holds the text unchanged.
#[verifier::external_body]
pub(crate) fn seal(text: String) -> (secret: SecretText)
    ensures
        secret_chars(secret) == text@,
{
    SecretText { inner: SecretString::from(text) }
}

/// `ExposeSecret::expose_secret` on a `SecretString`: a borrow of the text
/// that the box holds.
#[verifier::external_body]
pub(crate) fn expose(secret: &SecretText) -> (text: &str)
    ensures
        text@ == secret_chars(*secret),
{
    secret.inner.expose_secret()
}

/// `Zeroize::zeroize` on a `Vec<u8>`: overwrites the bytes and the spare
/// capacity with zeros, then clears the vector, so it ends up empty. It does
/// not panic: what it asserts is that the buffer's size fits an `isize`, which
/// holds of every `Vec`.
#[verifier::external_body]
pub(crate) fn wipe_bytes(bytes: &mut Vec<u8>)
    ensures
        final(bytes)@ == Seq::<u8>::empty(),
    opens_invariants none
    no_unwind
{
    bytes.zeroize()
}

/// `Zeroize::zeroize` on a `String`: overwrites its buffer with zeros and
/// clears it, so it ends up empty.
#[verifier::external_body]
pub(crate) fn wipe_text(text: &mut String)
    ensures
        final(text)@ == Seq::<char>::empty(),
{
    text.zeroize()
}

/// What `String::from_utf8_lossy` makes of bytes that are not valid UTF-8:
/// the text with U+FFFD in place of each malformed part.
pub uninterp spec fn lossy_text(bytes: Seq<u8>) -> Seq<char>;

/// The text that lossy decoding gives for `bytes`: the text they encode where
/// they are valid UTF-8, the repaired text where they are not.
pub open spec fn lossy_decoded(bytes: Seq<u8>) -> Seq<char> {
    if valid_utf8(bytes) {
        decode_utf8(bytes)
    } else {
        lossy_text(bytes)
    }
}

/// `String::from_utf8_lossy`, made into an owned `String`: bytes that are
/// valid UTF-8 decode to exactly the text they encode; any other input is
/// decoded with U+FFFD in place of each malformed part.
#[verifier::external_body]
pub(crate) fn decode_lossy(bytes: &[u8]) -> (text: String)
    ensures
        valid_utf8(bytes@) ==> text@ == decode_utf8(bytes@),
        !valid_utf8(bytes@) ==> text@ == lossy_text(bytes@),
{
    String::from_utf8_lossy(bytes).into_owned()
}

impl SecretText {
    /// The text inside, for the moment it is needed.
    pub fn expose_secret(&self) -> (text: &str)
        ensures
            text@ == self@,
    {
        expose(self)
    }
}

} // verus!
