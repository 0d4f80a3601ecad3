//! The derivation of a secret from an input phrase and the pepper.

use crate::error::staged;
use crate::error::Argon2Fault;
use crate::error::HashFault;
use crate::error::ParamFault;
use crate::error::SecretError;
use crate::hex::hex_text;
use crate::hex::is_lower_hex;
use crate::hex::lemma_hex_injective;
use crate::hex::to_hex;
use crate::sealed::lossy_decoded;
use crate::store::get_salt;
use crate::store::SaltStore;
use argon2::Algorithm;
use argon2::Argon2;
use argon2::Error;
use argon2::Params;
use argon2::Version;
use vstd::prelude::*;
use vstd::utf8::*;

verus! {

/// Memory cost of the process-wide settings, in KiB.
pub const MEMORY_COST: u32 = 1024 * 1024;

/// Iteration count of the process-wide settings.
pub const ITERATIONS: u32 = 2;

/// Degree of parallelism of the process-wide settings.
pub const PARALLELISM: u32 = 2;

/// Output length of the process-wide settings, in bytes.
pub const HASH_LENGTH: usize = 64;

/// The largest degree of parallelism that Argon2 takes.
pub const MAX_PARALLELISM: u32 = 0xFF_FFFF;

/// The largest length in bytes that Argon2 takes for a phrase, a pepper or
/// an output.
pub const MAX_LENGTH: usize = 0xFFFF_FFFF;

/// The four settings of a derivation. Two derivations reproduce the same
/// secret only if all four agree.
#[derive(Clone, Copy, Debug, PartialEq, Eq)]
pub struct DerivationParams {
    /// Memory cost in KiB.
    pub memory_cost: u32,
    /// Number of passes over the memory.
    pub iterations: u32,
    /// Number of lanes.
    pub parallelism: u32,
    /// Length of the derived secret in bytes.
    pub output_length: usize,
}

/// The check on which Argon2 refuses a derivation, if it refuses: the first
/// that fails, in the order in which it makes them. The settings come first,
/// then the lengths of phrase and pepper.
pub open spec fn argon2_verdict(password_len: nat, salt_len: nat, params: DerivationParams) -> Option<
    Argon2Fault,
> {
    if params.memory_cost < 8 {
        Some(Argon2Fault::MemoryTooLittle)
    } else if params.memory_cost < params.parallelism * 8 {
        Some(Argon2Fault::MemoryTooLittle)
    } else if params.iterations < 1 {
        Some(Argon2Fault::TimeTooSmall)
    } else if params.parallelism < 1 {
        Some(Argon2Fault::ThreadsTooFew)
    } else if params.parallelism > MAX_PARALLELISM {
        Some(Argon2Fault::ThreadsTooMany)
    } else if params.output_length < 4 {
        Some(Argon2Fault::OutputTooShort)
    } else if params.output_length > MAX_LENGTH {
        Some(Argon2Fault::OutputTooLong)
    } else if password_len > MAX_LENGTH {
        Some(Argon2Fault::PasswordTooLong)
    } else if salt_len < 8 {
        Some(Argon2Fault::SaltTooShort)
    } else if salt_len > MAX_LENGTH {
        Some(Argon2Fault::SaltTooLong)
    } else {
        None
    }
}

/// Argon2 takes the settings: given a phrase and a pepper of lengths that it
/// takes, it refuses nothing.
pub open spec fn accepts_settings(params: DerivationParams) -> bool {
    argon2_verdict(0, 8, params) is None
}

/// What this machine cannot address of the memory that the settings ask for,
/// if anything: an allocation is at most `isize::MAX` bytes, and the working
/// memory takes 1 KiB per unit of memory cost.
pub open spec fn address_fault(params: DerivationParams) -> Option<HashFault> {
    if params.memory_cost * 1024 > isize::MAX {
        Some(HashFault::MemoryTooMuch)
    } else if params.output_length > isize::MAX {
        Some(HashFault::OutputTooLong)
    } else {
        None
    }
}

/// The working memory and the output buffer can be allocated on this
/// machine.
pub open spec fn fits_address_space(params: DerivationParams) -> bool {
    address_fault(params) is None
}

/// Why a derivation fails, if it does. Settings that Argon2 refuses come
/// first; then settings that it takes and this machine cannot address; then a
/// phrase or a pepper that Argon2 refuses.
pub open spec fn rejection(password_len: nat, salt_len: nat, params: DerivationParams) -> Option<
    SecretError,
> {
    match argon2_verdict(0, 8, params) {
        Some(fault) => Some(staged(fault)),
        None => match address_fault(params) {
            Some(fault) => Some(SecretError::Derivation(fault)),
            None => match argon2_verdict(password_len, salt_len, params) {
                Some(fault) => Some(staged(fault)),
                None => None,
            },
        },
    }
}

/// The Argon2id hash (version 0x13, no secret key, no associated data) of
/// `password` under `salt`, `output_length` bytes long: what
/// `Argon2::hash_password_into` writes into its output buffer.
pub uninterp spec fn argon2id(
    password: Seq<u8>,
    salt: Seq<u8>,
    memory_cost: u32,
    iterations: u32,
    parallelism: u32,
    output_length: nat,
) -> Seq<u8>;

/// The raw hash for `password`, `salt` and `params`.
pub open spec fn raw_hash(password: Seq<u8>, salt: Seq<u8>, params: DerivationParams) -> Seq<u8> {
    argon2id(
        password,
        salt,
        params.memory_cost,
        params.iterations,
        params.parallelism,
        params.output_length as nat,
    )
}

/// What a derivation gives: the error that `rejection` names, or else the
/// raw hash in lowercase hexadecimal.
pub open spec fn derive_outcome(
    password: Seq<u8>,
    salt: Seq<u8>,
    params: DerivationParams,
) -> Result<Seq<char>, SecretError> {
    match rejection(password.len(), salt.len(), params) {
        Some(error) => Err(error),
        None => Ok(hex_text(raw_hash(password, salt, params))),
    }
}

/// The bytes that stand in for `pepper` in a derivation: the UTF-8 encoding of
/// the text that unmasking it gives.
pub open spec fn revealed_bytes(pepper: Seq<u8>) -> Seq<u8> {
    encode_utf8(lossy_decoded(pepper))
}

/// What `generate_hash` gives for the phrase `password` and a store that hides
/// `pepper`.
pub open spec fn generate_outcome(
    password: Seq<char>,
    pepper: Option<Seq<u8>>,
    params: DerivationParams,
) -> Result<Seq<char>, SecretError> {
    match pepper {
        Some(bytes) => derive_outcome(encode_utf8(password), revealed_bytes(bytes), params),
        None => Err(SecretError::VaultUninitialized),
    }
}

/// `result` is `outcome`, text for text and error for error.
pub open spec fn gives(
    result: Result<String, SecretError>,
    outcome: Result<Seq<char>, SecretError>,
) -> bool {
    match outcome {
        Ok(text) => result matches Ok(s) && s@ == text,
        Err(error) => result == Err::<String, SecretError>(error),
    }
}

/// `Params::new`, `Argon2::new` and `Argon2::hash_password_into`, in that
/// order, for Argon2id in version 0x13 and an output buffer of
/// `params.output_length` bytes; an `argon2::Error` is handed on as the
/// `Argon2Fault` of the same name.
///
/// `Params::new` makes the checks on the settings in the order of
/// `argon2_verdict`; `hash_password_into` then checks the lengths of phrase
/// and pepper in that order, and refuses nothing else, since the buffer has
/// the length that the settings ask for. Otherwise the buffer comes back
/// filled with the hash. Nothing is allocated before `Params::new` has
/// taken the settings. The preconditions leave out the settings on which
/// `Params::new` overflows in `p_cost * 8`, and those that it takes and on
/// which an allocation exceeds `isize::MAX` bytes. If the memory cannot be
/// had, the process aborts.
#[verifier::external_body]
pub(crate) fn argon2id_raw(
    password: &[u8],
    salt: &[u8],
    params: &DerivationParams,
) -> (raw: Result<Vec<u8>, Argon2Fault>)
    requires
        params.parallelism * 8 <= u32::MAX,
        accepts_settings(*params) ==> fits_address_space(*params),
    ensures
        (raw is Ok) == (argon2_verdict(password@.len(), salt@.len(), *params) is None),
        raw matches Err(fault) ==> argon2_verdict(password@.len(), salt@.len(), *params) == Some(
            fault,
        ),
        raw matches Ok(bytes) ==> bytes@.len() == params.output_length,
        raw matches Ok(bytes) ==> bytes@ == argon2id(
            password@,
            salt@,
            params.memory_cost,
            params.iterations,
            params.parallelism,
            params.output_length as nat,
        ),
{
    Params::new(params.memory_cost, params.iterations, params.parallelism, Some(params.output_length))
        .and_then(|settings| {
            let mut out = vec![0u8; params.output_length];
            Argon2::new(Algorithm::Argon2id, Version::V0x13, settings).hash_password_into(password, salt, &mut out)?;
            Ok(out)
        })
        .map_err(|error| match error {
            Error::MemoryTooLittle => Argon2Fault::MemoryTooLittle, Error::TimeTooSmall => Argon2Fault::TimeTooSmall,
            Error::ThreadsTooFew => Argon2Fault::ThreadsTooFew, Error::ThreadsTooMany => Argon2Fault::ThreadsTooMany,
            Error::OutputTooShort => Argon2Fault::OutputTooShort, Error::OutputTooLong => Argon2Fault::OutputTooLong,
            Error::PwdTooLong => Argon2Fault::PasswordTooLong, Error::SaltTooShort => Argon2Fault::SaltTooShort,
            Error::SaltTooLong => Argon2Fault::SaltTooLong, _ => Argon2Fault::Other
        })
}

impl DerivationParams {
    /// The settings that the process derives with.
    pub fn standard() -> (params: DerivationParams)
        ensures
            params == (DerivationParams {
                memory_cost: MEMORY_COST,
                iterations: ITERATIONS,
                parallelism: PARALLELISM,
                output_length: HASH_LENGTH,
            }),
            accepts_settings(params),
    {
        DerivationParams {
            memory_cost: MEMORY_COST,
            iterations: ITERATIONS,
            parallelism: PARALLELISM,
            output_length: HASH_LENGTH,
        }
    }

    /// Whether Argon2 takes these settings.
    pub fn accepts(&self) -> (yes: bool)
        ensures
            yes == accepts_settings(*self),
    {
        self.memory_cost >= 8 && self.memory_cost / 8 >= self.parallelism && self.iterations >= 1
            && self.parallelism >= 1 && self.parallelism <= MAX_PARALLELISM
            && self.output_length >= 4 && self.output_length <= MAX_LENGTH
    }

    /// What this machine cannot address of the memory that these settings
    /// ask for, if anything.
    pub fn address_limit(&self) -> (found: Option<HashFault>)
        ensures
            found == address_fault(*self),
    {
        let limit: usize = isize::MAX as usize;
        if self.memory_cost as u64 > (limit as u64) / 1024 {
            Some(HashFault::MemoryTooMuch)
        } else if self.output_length > limit {
            Some(HashFault::OutputTooLong)
        } else {
            None
        }
    }
}

/// Turns what Argon2 handed back into what the caller gets: the hash in
/// lowercase hexadecimal, or the error for the check on which it refused.
pub fn conclude(raw: Result<Vec<u8>, Argon2Fault>) -> (result: Result<String, SecretError>)
    ensures
        raw matches Ok(bytes) ==> result matches Ok(text) && text@ == hex_text(bytes@),
        raw matches Err(fault) ==> result == Err::<String, SecretError>(staged(fault)),
{
    match raw {
        Ok(bytes) => Ok(to_hex(bytes.as_slice())),
        Err(fault) => Err(SecretError::from_fault(fault)),
    }
}

/// Derives the secret for `password` under `salt`: Argon2id over the two,
/// rendered in lowercase hexadecimal. Argon2 decides what it takes, and its
/// refusal is handed on under the stage that it belongs to. The only
/// refusal made here is of settings that Argon2 takes and whose memory this
/// machine cannot address.
pub fn derive_key(password: &[u8], salt: &[u8], params: &DerivationParams) -> (result: Result<
    String,
    SecretError,
>)
    ensures
        gives(result, derive_outcome(password@, salt@, *params)),
        result matches Ok(text) ==> text@.len() == 2 * params.output_length && forall|i: int|
            0 <= i < text@.len() ==> is_lower_hex(#[trigger] text@[i]),
{
    if params.parallelism > u32::MAX / 8 {
        // Argon2 asks for eight blocks per lane and would overflow counting
        // them: no memory cost is that large.
        return Err(SecretError::Parameter(ParamFault::MemoryTooLittle));
    }
    if params.accepts() {
        if let Some(fault) = params.address_limit() {
            return Err(SecretError::Derivation(fault));
        }
    }
    conclude(argon2id_raw(password, salt, params))
}

/// Derives the secret for the phrase `password` under the pepper that `store`
/// holds. The pepper is unmasked for the call and dropped, wiped, at its end.
pub fn generate_hash(password: &str, store: &SaltStore, params: &DerivationParams) -> (result:
    Result<String, SecretError>)
    ensures
        gives(result, generate_outcome(password@, store@, *params)),
        store@ is None ==> result == Err::<String, SecretError>(SecretError::VaultUninitialized),
        result matches Ok(text) ==> text@.len() == 2 * params.output_length && forall|i: int|
            0 <= i < text@.len() ==> is_lower_hex(#[trigger] text@[i]),
{
    match get_salt(store) {
        Ok(salt) => derive_key(password.as_bytes(), salt.expose_secret().as_bytes(), params),
        Err(error) => Err(error),
    }
}

/// A derivation is a function of the phrase, the pepper and the settings:
/// equal inputs give the equal outcome, whichever vault hides the pepper and
/// whenever it is asked.
pub proof fn lemma_derivation_is_deterministic(
    password_a: Seq<char>,
    pepper_a: Option<Seq<u8>>,
    params_a: DerivationParams,
    password_b: Seq<char>,
    pepper_b: Option<Seq<u8>>,
    params_b: DerivationParams,
)
    requires
        password_a == password_b,
        pepper_a == pepper_b,
        params_a == params_b,
    ensures
        generate_outcome(password_a, pepper_a, params_a) == generate_outcome(
            password_b,
            pepper_b,
            params_b,
        ),
{
}

/// Two derivations that succeed give the same secret only if their raw
/// hashes are the same: the rendering adds no collision of its own.
pub proof fn lemma_rendering_adds_no_collision(
    password_a: Seq<u8>,
    salt_a: Seq<u8>,
    params_a: DerivationParams,
    password_b: Seq<u8>,
    salt_b: Seq<u8>,
    params_b: DerivationParams,
)
    requires
        derive_outcome(password_a, salt_a, params_a) is Ok,
        derive_outcome(password_a, salt_a, params_a) == derive_outcome(
            password_b,
            salt_b,
            params_b,
        ),
    ensures
        raw_hash(password_a, salt_a, params_a) == raw_hash(password_b, salt_b, params_b),
{
    lemma_hex_injective(
        raw_hash(password_a, salt_a, params_a),
        raw_hash(password_b, salt_b, params_b),
    );
}

/// Where two derivations are both accepted and their raw hashes differ, both
/// give a secret and the two secrets differ. Whether the raw hashes of two
/// inputs differ is up to Argon2.
pub proof fn lemma_distinct_hashes_give_distinct_secrets(
    password_a: Seq<char>,
    pepper_a: Seq<u8>,
    params_a: DerivationParams,
    password_b: Seq<char>,
    pepper_b: Seq<u8>,
    params_b: DerivationParams,
)
    requires
        rejection(encode_utf8(password_a).len(), revealed_bytes(pepper_a).len(), params_a)
            is None,
        rejection(encode_utf8(password_b).len(), revealed_bytes(pepper_b).len(), params_b)
            is None,
        raw_hash(encode_utf8(password_a), revealed_bytes(pepper_a), params_a) != raw_hash(
            encode_utf8(password_b),
            revealed_bytes(pepper_b),
            params_b,
        ),
    ensures
        generate_outcome(password_a, Some(pepper_a), params_a) is Ok,
        generate_outcome(password_b, Some(pepper_b), params_b) is Ok,
        generate_outcome(password_a, Some(pepper_a), params_a) != generate_outcome(
            password_b,
            Some(pepper_b),
            params_b,
        ),
{
    if generate_outcome(password_a, Some(pepper_a), params_a) == generate_outcome(
        password_b,
        Some(pepper_b),
        params_b,
    ) {
        lemma_rendering_adds_no_collision(
            encode_utf8(password_a),
            revealed_bytes(pepper_a),
            params_a,
            encode_utf8(password_b),
            revealed_bytes(pepper_b),
            params_b,
        );
    }
}

/// A pepper that is the UTF-8 encoding of a text goes into the derivation
/// byte for byte.
pub proof fn lemma_text_pepper_is_used_unchanged(text: Seq<char>)
    ensures
        revealed_bytes(encode_utf8(text)) == encode_utf8(text),
{
    encode_utf8_valid_utf8(text);
    encode_utf8_decode_utf8(text);
}

/// With no vault stored, every derivation fails as uninitialized, whatever
/// the phrase and the settings.
pub proof fn lemma_empty_store_refuses(password: Seq<char>, params: DerivationParams)
    ensures
        generate_outcome(password, None, params) == Err::<Seq<char>, SecretError>(
            SecretError::VaultUninitialized,
        ),
{
}

} // verus!
