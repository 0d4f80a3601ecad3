//! The masked container that holds the pepper for the life of the process.

use crate::sealed::decode_lossy;
use crate::sealed::lossy_decoded;
use crate::sealed::seal;
use crate::sealed::wipe_bytes;
use crate::sealed::SecretText;
use vstd::prelude::*;
use vstd::string::StringExecFns;
use vstd::string::StringSliceAdditionalSpecFns;
use vstd::utf8::*;

verus! {

/// The key byte that masks position `i` of the pepper.
pub open spec fn key_byte(i: int) -> u8 {
    ((i % 256) as u8).wrapping_mul(0x5A).wrapping_add(0x3C)
}

/// The masking key for a pepper of `len` bytes.
pub open spec fn key_stream(len: nat) -> Seq<u8> {
    Seq::new(len, |i: int| key_byte(i))
}

/// Byte-wise XOR of two sequences, as long as the shorter of the two.
pub open spec fn xor_bytes(a: Seq<u8>, b: Seq<u8>) -> Seq<u8> {
    Seq::new(if a.len() <= b.len() { a.len() } else { b.len() }, |i: int| a[i] ^ b[i])
}

/// Masking a byte sequence and unmasking it with the same key gives it back.
pub proof fn lemma_xor_round_trip(p: Seq<u8>, key: Seq<u8>)
    requires
        key.len() == p.len(),
    ensures
        xor_bytes(xor_bytes(p, key), key) == p,
{
    assert forall|i: int| 0 <= i < p.len() implies (#[trigger] p[i] ^ key[i]) ^ key[i] == p[i] by {
        let a: u8 = p[i];
        let k: u8 = key[i];
        assert((a ^ k) ^ k == a) by (bit_vector);
    }
    assert(xor_bytes(xor_bytes(p, key), key) =~= p);
}

/// Unmasking what was masked under the generated key gives the pepper back,
/// whatever bytes the pepper is made of.
pub proof fn lemma_unmask_gives_pepper(pepper: Seq<u8>)
    ensures
        xor_bytes(xor_bytes(pepper, key_stream(pepper.len())), key_stream(pepper.len()))
            == pepper,
{
    lemma_xor_round_trip(pepper, key_stream(pepper.len()));
}

/// A text that is masked and then revealed comes back character for
/// character: unmasking gives back the bytes that encode it, and decoding
/// those gives back the text.
pub proof fn lemma_reveal_gives_text(text: Seq<char>)
    ensures
        ({
            let pepper = encode_utf8(text);
            let key = key_stream(pepper.len());
            &&& xor_bytes(xor_bytes(pepper, key), key) == pepper
            &&& lossy_decoded(pepper) == text
        }),
{
    lemma_unmask_gives_pepper(encode_utf8(text));
    encode_utf8_valid_utf8(text);
    encode_utf8_decode_utf8(text);
}

/// The key for a pepper that is not empty starts with a byte that is not
/// zero, so it never leaves the whole pepper unmasked.
pub proof fn lemma_key_is_not_all_zero(len: nat)
    requires
        len > 0,
    ensures
        key_stream(len)[0] == 0x3C,
{
}

/// A vault that masks a pepper hides exactly that pepper, and stores it
/// changed: where the pepper is not empty, the first stored byte is not the
/// pepper's first byte.
pub proof fn lemma_masked_vault(vault: ObfuscatedSalt, pepper: Seq<u8>)
    requires
        vault.masks(pepper),
    ensures
        vault@ == pepper,
        pepper.len() > 0 ==> vault.obfuscated()[0] != pepper[0],
{
    lemma_xor_round_trip(pepper, key_stream(pepper.len()));
    if pepper.len() > 0 {
        let first: u8 = pepper[0];
        assert(key_stream(pepper.len())[0] == 0x3C);
        assert(first ^ 0x3C != first) by (bit_vector);
    }
}

/// What a vault shows of itself: its field names, and a placeholder where the
/// contents would stand.
pub open spec fn redacted_text() -> Seq<char> {
    "ObfuscatedSalt { obfuscated_bytes: \"[REDACTED]\", xor_key: \"[REDACTED]\" }"@
}

/// Generates the masking key for a pepper of `len` bytes.
pub fn generate_key(len: usize) -> (key: Vec<u8>)
    ensures
        key@ == key_stream(len as nat),
{
    let mut key: Vec<u8> = Vec::new();
    let mut i: usize = 0;
    while i < len
        invariant
            i <= len,
            key@ == key_stream(i as nat),
        decreases len - i,
    {
        let low: u8 = (i % 256) as u8;
        key.push(low.wrapping_mul(0x5A).wrapping_add(0x3C));
        i = i + 1;
        assert(key@ =~= key_stream(i as nat));
    }
    key
}

/// XORs two buffers byte by byte into a fresh one, as long as the shorter of
/// the two.
pub fn xor_buffers(a: &[u8], b: &[u8]) -> (out: Vec<u8>)
    ensures
        out@ == xor_bytes(a@, b@),
{
    let n: usize = if a.len() <= b.len() { a.len() } else { b.len() };
    let mut out: Vec<u8> = Vec::new();
    let mut i: usize = 0;
    while i < n
        invariant
            i <= n,
            n <= a.len(),
            n <= b.len(),
            out@ == xor_bytes(a@, b@).subrange(0, i as int),
            n == xor_bytes(a@, b@).len(),
        decreases n - i,
    {
        out.push(a[i] ^ b[i]);
        i = i + 1;
        assert(out@ =~= xor_bytes(a@, b@).subrange(0, i as int));
    }
    assert(out@ =~= xor_bytes(a@, b@));
    out
}

/// The pepper, masked: two buffers of equal length whose byte-wise XOR is
/// the pepper. Neither buffer alone shows it.
pub struct ObfuscatedSalt {
    obfuscated_bytes: Vec<u8>,
    xor_key: Vec<u8>,
}

impl View for ObfuscatedSalt {
    type V = Seq<u8>;

    /// The pepper that the vault hides.
    open spec fn view(&self) -> Seq<u8> {
        self.pepper()
    }
}

impl ObfuscatedSalt {
    /// The two buffers have the same length.
    pub open spec fn wf(&self) -> bool {
        self.obfuscated().len() == self.key().len()
    }

    /// The masked bytes as stored.
    pub closed spec fn obfuscated(&self) -> Seq<u8> {
        self.obfuscated_bytes@
    }

    /// The masking key as stored.
    pub closed spec fn key(&self) -> Seq<u8> {
        self.xor_key@
    }

    /// The pepper that the two buffers stand for.
    pub open spec fn pepper(&self) -> Seq<u8> {
        xor_bytes(self.obfuscated(), self.key())
    }

    /// The vault holds `pepper` masked under the generated key: the key is
    /// the key stream of the pepper's length, and the stored bytes are the
    /// pepper XOR the key.
    pub open spec fn masks(&self, pepper: Seq<u8>) -> bool {
        &&& self.wf()
        &&& self.key() == key_stream(pepper.len())
        &&& self.obfuscated() == xor_bytes(pepper, self.key())
    }

    /// Masks `salt` under a freshly generated key of the same length.
    pub fn new(salt: &str) -> (vault: ObfuscatedSalt)
        ensures
            vault.masks(salt.spec_bytes()),
            vault.wf(),
            vault.key() == key_stream(salt.spec_bytes().len()),
            vault.obfuscated() == xor_bytes(salt.spec_bytes(), vault.key()),
            vault@ == salt.spec_bytes(),
    {
        let salt_bytes = salt.as_bytes();
        let xor_key = generate_key(salt_bytes.len());
        let obfuscated_bytes = xor_buffers(salt_bytes, xor_key.as_slice());
        proof {
            lemma_xor_round_trip(salt_bytes@, xor_key@);
        }
        ObfuscatedSalt { obfuscated_bytes, xor_key }
    }

    /// Unmasks the pepper into a fresh buffer, hands it out as secret text,
    /// and wipes the buffer.
    pub fn reveal_salt(&self) -> (secret: SecretText)
        ensures
            secret@ == lossy_decoded(self@),
    {
        let mut revealed = xor_buffers(self.obfuscated_bytes.as_slice(), self.xor_key.as_slice());
        let result = decode_lossy(revealed.as_slice());
        wipe_bytes(&mut revealed);
        seal(result)
    }

    /// The diagnostic rendering of a vault. It is the same for every vault
    /// and shows nothing of the buffers.
    pub fn debug_text(&self) -> (shown: String)
        ensures
            shown@ == redacted_text(),
    {
        String::from_str(
            "ObfuscatedSalt { obfuscated_bytes: \"[REDACTED]\", xor_key: \"[REDACTED]\" }",
        )
    }

    /// Overwrites both buffers with zeros and empties them.
    pub fn wipe(&mut self)
        ensures
            final(self).wf(),
            final(self).obfuscated() == Seq::<u8>::empty(),
            final(self).key() == Seq::<u8>::empty(),
        opens_invariants none
        no_unwind
    {
        wipe_bytes(&mut self.obfuscated_bytes);
        wipe_bytes(&mut self.xor_key);
    }
}

impl Drop for ObfuscatedSalt {
    /// Wipes both buffers before their memory is released.
    fn drop(&mut self)
        ensures
            final(self).obfuscated() == Seq::<u8>::empty(),
            final(self).key() == Seq::<u8>::empty(),
        opens_invariants none
        no_unwind
    {
        self.wipe();
    }
}

} // verus!
