//! The one-time startup sequence. It acquires the pepper (`acquire_pepper`),
//! masks it into the store and purges the plaintext (`install`), and ends
//! ready, or degraded where no pepper was found. Reading the sources of the
//! pepper, and removing it from the environment afterwards, is the caller's
//! part.

use crate::derive::generate_outcome;
use crate::derive::DerivationParams;
use crate::error::SecretError;
use crate::sealed::wipe_text;
use crate::store::SaltStore;
use crate::vault::ObfuscatedSalt;
use vstd::prelude::*;
use vstd::utf8::*;

verus! {

/// Where the pepper came from.
#[derive(Clone, Copy, Debug, PartialEq, Eq)]
pub enum PepperSource {
    /// The value that the running process was given.
    Runtime,
    /// The value that was embedded when the program was built.
    Embedded,
}

/// How startup left the store.
#[derive(Clone, Copy, Debug, PartialEq, Eq)]
pub enum StartupState {
    /// The store holds a vault; derivations can run.
    Ready,
    /// The store holds no vault, for want of a pepper. Derivations will
    /// fail; the rest still works.
    Degraded,
}

/// The text of an optional string.
pub open spec fn text_of(value: Option<String>) -> Option<Seq<char>> {
    match value {
        Some(text) => Some(text@),
        None => None,
    }
}

/// A source offers a pepper: it holds a value, and the value is not empty.
pub open spec fn offers(value: Option<Seq<char>>) -> bool {
    value matches Some(text) && text.len() > 0
}

/// What is left of a source once its value has been wiped: the empty text
/// where there was a value, nothing where there was none.
pub open spec fn wiped(value: Option<Seq<char>>) -> Option<Seq<char>> {
    match value {
        Some(_) => Some(Seq::<char>::empty()),
        None => None,
    }
}

/// The pepper that startup settles on, with its source: the runtime value if
/// it offers one, else the embedded value if that offers one, else none. An
/// empty value counts as absent.
pub open spec fn acquired(runtime: Option<Seq<char>>, embedded: Option<Seq<char>>) -> Option<
    (Seq<char>, PepperSource),
> {
    if offers(runtime) {
        Some((runtime->0, PepperSource::Runtime))
    } else if offers(embedded) {
        Some((embedded->0, PepperSource::Embedded))
    } else {
        None
    }
}

/// The source that startup settles on, if any.
pub open spec fn acquired_source(runtime: Option<Seq<char>>, embedded: Option<Seq<char>>) -> Option<
    PepperSource,
> {
    match acquired(runtime, embedded) {
        Some((_, source)) => Some(source),
        None => None,
    }
}

/// The pepper that startup settles on, if any.
pub open spec fn acquired_text(runtime: Option<Seq<char>>, embedded: Option<Seq<char>>) -> Option<
    Seq<char>,
> {
    match acquired(runtime, embedded) {
        Some((text, _)) => Some(text),
        None => None,
    }
}

/// How startup ends, and the pepper that the store hides afterwards, for a
/// store that hid `before`. Startup ends ready exactly where the store then
/// holds a vault: its own, or one that was there before and that it found no
/// pepper to replace.
pub open spec fn startup_outcome(
    before: Option<Seq<u8>>,
    runtime: Option<Seq<char>>,
    embedded: Option<Seq<char>>,
) -> (Result<StartupState, SecretError>, Option<Seq<u8>>) {
    match acquired_text(runtime, embedded) {
        None => if before is Some {
            (Ok(StartupState::Ready), before)
        } else {
            (Ok(StartupState::Degraded), before)
        },
        Some(text) => if before is Some {
            (Err(SecretError::DoubleInitialization), before)
        } else {
            (Ok(StartupState::Ready), Some(encode_utf8(text)))
        },
    }
}

/// Whether `value` holds a text that is not empty.
fn holds_text(value: &Option<String>) -> (yes: bool)
    ensures
        yes == offers(text_of(*value)),
{
    match value {
        Some(text) => !text.as_str().is_empty(),
        None => false,
    }
}

/// Wipes the value of a source, if it has one.
fn wipe_value(value: &mut Option<String>)
    ensures
        text_of(*final(value)) == wiped(text_of(*old(value))),
{
    match value {
        Some(text) => {
            wipe_text(text);
        },
        None => {},
    }
}

/// Picks the source of the pepper: the runtime value if it is not empty,
/// else the embedded value if that is not empty. The value picked is left in
/// place; every value passed over is wiped.
pub fn acquire_pepper(runtime: &mut Option<String>, embedded: &mut Option<String>) -> (source:
    Option<PepperSource>)
    ensures
        source == acquired_source(text_of(*old(runtime)), text_of(*old(embedded))),
        text_of(*final(runtime)) == if source == Some(PepperSource::Runtime) {
            text_of(*old(runtime))
        } else {
            wiped(text_of(*old(runtime)))
        },
        text_of(*final(embedded)) == if source == Some(PepperSource::Embedded) {
            text_of(*old(embedded))
        } else {
            wiped(text_of(*old(embedded)))
        },
{
    if holds_text(runtime) {
        wipe_value(embedded);
        Some(PepperSource::Runtime)
    } else if holds_text(embedded) {
        wipe_value(runtime);
        Some(PepperSource::Embedded)
    } else {
        wipe_value(runtime);
        wipe_value(embedded);
        None
    }
}

/// Masks `pepper` into a vault, puts the vault into `store`, and wipes
/// `pepper`. A store that already holds a vault keeps it; `pepper` is wiped
/// all the same.
pub fn install(store: &mut SaltStore, pepper: &mut String) -> (result: Result<(), SecretError>)
    ensures
        final(pepper)@ == Seq::<char>::empty(),
        old(store)@ is None ==> result is Ok && final(store)@ == Some(encode_utf8(old(pepper)@)),
        old(store)@ is None ==> (final(store).held() matches Some(vault) && vault.masks(
            encode_utf8(old(pepper)@),
        )),
        old(store)@ is Some ==> result == Err::<(), SecretError>(
            SecretError::DoubleInitialization,
        ) && final(store).held() == old(store).held(),
{
    let result = if store.is_initialized() {
        Err(SecretError::DoubleInitialization)
    } else {
        store.set(ObfuscatedSalt::new(pepper.as_str()))
    };
    wipe_text(pepper);
    result
}

/// Masks the value of a source into `store` and wipes it in place.
fn install_value(store: &mut SaltStore, value: &mut Option<String>) -> (result: Result<
    (),
    SecretError,
>)
    requires
        *old(value) is Some,
    ensures
        text_of(*final(value)) == wiped(text_of(*old(value))),
        old(store)@ is None ==> result is Ok && final(store)@ == Some(
            encode_utf8(text_of(*old(value))->0),
        ),
        old(store)@ is None ==> (final(store).held() matches Some(vault) && vault.masks(
            encode_utf8(text_of(*old(value))->0),
        )),
        old(store)@ is Some ==> result == Err::<(), SecretError>(
            SecretError::DoubleInitialization,
        ) && final(store).held() == old(store).held(),
{
    match value {
        Some(pepper) => install(store, pepper),
        None => Ok(()),
    }
}

/// Runs startup on `store`: acquires the pepper, masks it into the store, and
/// purges the plaintext, so that every value handed in ends up wiped. Without
/// a pepper the store is left as it was.
pub fn initialize(
    store: &mut SaltStore,
    runtime: &mut Option<String>,
    embedded: &mut Option<String>,
) -> (result: Result<StartupState, SecretError>)
    ensures
        (result, final(store)@) == startup_outcome(
            old(store)@,
            text_of(*old(runtime)),
            text_of(*old(embedded)),
        ),
        old(store)@ is None ==> match acquired_text(
            text_of(*old(runtime)),
            text_of(*old(embedded)),
        ) {
            Some(text) => final(store).held() matches Some(vault) && vault.masks(
                encode_utf8(text),
            ),
            None => final(store).held() is None,
        },
        old(store)@ is Some ==> final(store).held() == old(store).held(),
        text_of(*final(runtime)) == wiped(text_of(*old(runtime))),
        text_of(*final(embedded)) == wiped(text_of(*old(embedded))),
{
    let installed = match acquire_pepper(runtime, embedded) {
        Some(PepperSource::Runtime) => install_value(store, runtime),
        Some(PepperSource::Embedded) => install_value(store, embedded),
        None => Ok(()),
    };
    match installed {
        Ok(()) => if store.is_initialized() {
            Ok(StartupState::Ready)
        } else {
            Ok(StartupState::Degraded)
        },
        Err(error) => Err(error),
    }
}

/// After a startup that found no pepper, every derivation fails as
/// uninitialized. A source without a value and a source with an empty value
/// are both no pepper.
pub proof fn lemma_degraded_startup_refuses(
    runtime: Option<Seq<char>>,
    embedded: Option<Seq<char>>,
    password: Seq<char>,
    params: DerivationParams,
)
    requires
        !offers(runtime),
        !offers(embedded),
    ensures
        startup_outcome(None, runtime, embedded).0 == Ok::<StartupState, SecretError>(
            StartupState::Degraded,
        ),
        generate_outcome(password, startup_outcome(None, runtime, embedded).1, params) == Err::<
            Seq<char>,
            SecretError,
        >(SecretError::VaultUninitialized),
{
}

/// Startup never masks an empty pepper: where it ends ready on a store that
/// was empty, the store hides at least one byte.
pub proof fn lemma_ready_pepper_is_not_empty(
    runtime: Option<Seq<char>>,
    embedded: Option<Seq<char>>,
)
    requires
        startup_outcome(None, runtime, embedded).0 == Ok::<StartupState, SecretError>(
            StartupState::Ready,
        ),
    ensures
        startup_outcome(None, runtime, embedded).1 matches Some(pepper) && pepper.len() > 0,
{
    let text = acquired_text(runtime, embedded)->0;
    assert(text.len() > 0);
    assert(encode_utf8(text) =~= encode_scalar(text[0] as u32) + encode_utf8(text.drop_first()));
}

/// Once a startup has stored a vault, a second startup that finds a pepper is
/// refused and leaves the store as it was.
pub proof fn lemma_second_startup_is_refused(
    first_runtime: Option<Seq<char>>,
    first_embedded: Option<Seq<char>>,
    second_runtime: Option<Seq<char>>,
    second_embedded: Option<Seq<char>>,
)
    requires
        acquired(first_runtime, first_embedded) is Some,
        acquired(second_runtime, second_embedded) is Some,
    ensures
        ({
            let first = startup_outcome(None, first_runtime, first_embedded);
            let second = startup_outcome(first.1, second_runtime, second_embedded);
            &&& first.0 is Ok
            &&& second.0 == Err::<StartupState, SecretError>(SecretError::DoubleInitialization)
            &&& second.1 == first.1
        }),
{
}

} // verus!
