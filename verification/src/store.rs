//! The write-once place where the process keeps its vault.

use crate::error::SecretError;
use crate::sealed::lossy_decoded;
use crate::sealed::SecretText;
use crate::vault::ObfuscatedSalt;
use vstd::prelude::*;

verus! {

/// Holds at most one vault. Once a vault is in, it stays, and no second one
/// is taken.
pub struct SaltStore {
    slot: Option<ObfuscatedSalt>,
}

impl View for SaltStore {
    type V = Option<Seq<u8>>;

    /// The pepper that the stored vault hides, if a vault is stored.
    open spec fn view(&self) -> Option<Seq<u8>> {
        match self.held() {
            Some(vault) => Some(vault@),
            None => None,
        }
    }
}

impl SaltStore {
    /// The vault in the store, if any.
    pub closed spec fn held(&self) -> Option<ObfuscatedSalt> {
        self.slot
    }

    /// A store with no vault in it.
    pub fn new() -> (store: SaltStore)
        ensures
            store.held() is None,
    {
        SaltStore { slot: None }
    }

    /// Whether a vault has been stored.
    pub fn is_initialized(&self) -> (yes: bool)
        ensures
            yes == (self.held() is Some),
    {
        self.slot.is_some()
    }

    /// Stores `vault` if the store is empty. A store that already holds a
    /// vault keeps it and refuses the new one.
    pub fn set(&mut self, vault: ObfuscatedSalt) -> (result: Result<(), SecretError>)
        ensures
            old(self).held() is None ==> result is Ok && final(self).held() == Some(vault),
            old(self).held() is Some ==> result == Err::<(), SecretError>(
                SecretError::DoubleInitialization,
            ) && final(self).held() == old(self).held(),
    {
        if self.slot.is_some() {
            Err(SecretError::DoubleInitialization)
        } else {
            self.slot = Some(vault);
            Ok(())
        }
    }

    /// The stored vault, if any.
    pub fn get(&self) -> (found: Option<&ObfuscatedSalt>)
        ensures
            match found {
                Some(vault) => self.held() == Some(*vault),
                None => self.held() is None,
            },
    {
        self.slot.as_ref()
    }
}

/// The text that `get_salt` gives for a store that hides `pepper`.
pub open spec fn salt_outcome(pepper: Option<Seq<u8>>) -> Result<Seq<char>, SecretError> {
    match pepper {
        Some(bytes) => Ok(lossy_decoded(bytes)),
        None => Err(SecretError::VaultUninitialized),
    }
}

/// Unmasks the pepper of the stored vault. With no vault stored there is
/// nothing to unmask, and the call fails.
pub fn get_salt(store: &SaltStore) -> (result: Result<SecretText, SecretError>)
    ensures
        match salt_outcome(store@) {
            Ok(text) => result matches Ok(secret) && secret@ == text,
            Err(error) => result == Err::<SecretText, SecretError>(error),
        },
{
    match store.get() {
        Some(vault) => Ok(vault.reveal_salt()),
        None => Err(SecretError::VaultUninitialized),
    }
}

} // verus!
