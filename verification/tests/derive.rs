use lazypass::derive::conclude;
use lazypass::derive::derive_key;
use lazypass::derive::generate_hash;
use lazypass::derive::DerivationParams;
use lazypass::derive::HASH_LENGTH;
use lazypass::derive::ITERATIONS;
use lazypass::derive::MEMORY_COST;
use lazypass::derive::PARALLELISM;
use lazypass::error::Argon2Fault;
use lazypass::error::HashFault;
use lazypass::error::ParamFault;
use lazypass::error::SecretError;
use lazypass::store::SaltStore;
use lazypass::vault::ObfuscatedSalt;

fn params(memory_cost: u32, iterations: u32, parallelism: u32, output_length: usize) -> DerivationParams {
    DerivationParams { memory_cost, iterations, parallelism, output_length }
}

fn small() -> DerivationParams {
    params(64, 2, 1, 32)
}

fn store_with(pepper: &str) -> SaltStore {
    let mut store = SaltStore::new();
    store.set(ObfuscatedSalt::new(pepper)).expect("a new store is empty");
    store
}

fn is_lower_hex(text: &str) -> bool {
    text.chars().all(|c| matches!(c, '0'..='9' | 'a'..='f'))
}

#[test]
fn standard_settings() {
    assert_eq!(MEMORY_COST, 1_048_576);
    assert_eq!(ITERATIONS, 2);
    assert_eq!(PARALLELISM, 2);
    assert_eq!(HASH_LENGTH, 64);
    let standard = DerivationParams::standard();
    assert_eq!(standard, params(1_048_576, 2, 2, 64));
    assert!(standard.accepts());
    assert_eq!(standard.address_limit(), None);
}

#[test]
fn published_argon2id_vector_one_lane() {
    assert_eq!(
        derive_key(b"password", b"somesalt", &params(256, 2, 1, 32)),
        Ok(String::from("9dfeb910e80bad0311fee20f9c0e2b12c17987b4cac90c2ef54d5b3021c68bfe"))
    );
}

#[test]
fn published_argon2id_vector_two_lanes() {
    assert_eq!(
        derive_key(b"password", b"somesalt", &params(256, 2, 2, 32)),
        Ok(String::from("6d093c501fd5999645e0ea3bf620d7b8be7fd2db59c20d9fff9539da2bf57037"))
    );
}

#[test]
fn generate_hash_uses_the_stored_pepper_as_salt() {
    let store = store_with("somesalt");
    assert_eq!(
        generate_hash("password", &store, &params(256, 2, 1, 32)),
        Ok(String::from("9dfeb910e80bad0311fee20f9c0e2b12c17987b4cac90c2ef54d5b3021c68bfe"))
    );
}

#[test]
fn phrase_and_pepper_are_not_interchangeable() {
    let swapped = derive_key(b"somesalt", b"password", &params(256, 2, 1, 32)).expect("valid");
    assert_ne!(swapped, "9dfeb910e80bad0311fee20f9c0e2b12c17987b4cac90c2ef54d5b3021c68bfe");
}

#[test]
fn derivation_is_deterministic() {
    let store = store_with("pepper123");
    let first = generate_hash("myphrase", &store, &small());
    let second = generate_hash("myphrase", &store, &small());
    assert!(first.is_ok());
    assert_eq!(first, second);
    let rebuilt = store_with("pepper123");
    assert_eq!(generate_hash("myphrase", &rebuilt, &small()), first);
}

#[test]
fn changing_the_phrase_changes_the_secret() {
    let store = store_with("pepper123");
    let base = generate_hash("myphrase", &store, &small()).expect("valid");
    for other in ["myphrasf", "Myphrase", "myphrase2", "myphras", ""] {
        assert_ne!(generate_hash(other, &store, &small()).expect("valid"), base);
    }
}

#[test]
fn changing_the_pepper_changes_the_secret() {
    let base = generate_hash("myphrase", &store_with("pepper123"), &small()).expect("valid");
    for other in ["pepper124", "Pepper123", "pepper1234", "qepper123"] {
        assert_ne!(generate_hash("myphrase", &store_with(other), &small()).expect("valid"), base);
    }
}

#[test]
fn changing_a_setting_changes_the_secret() {
    let base = derive_key(b"myphrase", b"pepper123", &small()).expect("valid");
    assert_ne!(derive_key(b"myphrase", b"pepper123", &params(65, 2, 1, 32)).expect("valid"), base);
    assert_ne!(derive_key(b"myphrase", b"pepper123", &params(64, 3, 1, 32)).expect("valid"), base);
    assert_ne!(derive_key(b"myphrase", b"pepper123", &params(64, 2, 2, 32)).expect("valid"), base);
}

#[test]
fn output_is_sixty_four_lowercase_hex_characters() {
    let text = generate_hash("myphrase", &store_with("pepper123"), &small()).expect("valid");
    assert_eq!(text.len(), 64);
    assert!(is_lower_hex(&text));
}

#[test]
fn output_length_follows_the_setting() {
    for length in [4usize, 5, 31, 64, 65, 96, 97, 200] {
        let text = derive_key(b"myphrase", b"pepper123", &params(64, 2, 1, length)).expect("valid");
        assert_eq!(text.len(), 2 * length);
        assert!(is_lower_hex(&text));
    }
}

#[test]
fn empty_store_gives_vault_uninitialized() {
    let store = SaltStore::new();
    assert_eq!(generate_hash("myphrase", &store, &small()), Err(SecretError::VaultUninitialized));
    assert_eq!(
        generate_hash("myphrase", &store, &params(0, 0, 0, 0)),
        Err(SecretError::VaultUninitialized)
    );
}

#[test]
fn each_rejected_setting_is_named() {
    let cases = [
        (params(7, 2, 1, 32), ParamFault::MemoryTooLittle),
        (params(0, 2, 1, 32), ParamFault::MemoryTooLittle),
        (params(15, 2, 2, 32), ParamFault::MemoryTooLittle),
        (params(64, 0, 1, 32), ParamFault::TimeTooSmall),
        (params(64, 2, 0, 32), ParamFault::ThreadsTooFew),
        (params(u32::MAX, 2, 0x100_0000, 32), ParamFault::ThreadsTooMany),
        (params(64, 2, 1, 3), ParamFault::OutputTooShort),
        (params(64, 2, 1, 0), ParamFault::OutputTooShort),
        (params(64, 2, 1, 0x1_0000_0000), ParamFault::OutputTooLong),
        (params(64, 2, 0x1FFF_FFFF, 32), ParamFault::MemoryTooLittle),
        (params(u32::MAX, 2, 0x2000_0000, 32), ParamFault::MemoryTooLittle),
        (params(u32::MAX, 2, u32::MAX, 32), ParamFault::MemoryTooLittle),
    ];
    for (settings, fault) in cases {
        assert_eq!(
            derive_key(b"myphrase", b"pepper123", &settings),
            Err(SecretError::Parameter(fault))
        );
        assert_eq!(
            generate_hash("myphrase", &store_with("pepper123"), &settings),
            Err(SecretError::Parameter(fault))
        );
    }
}

#[test]
fn smallest_accepted_settings_derive() {
    let text = derive_key(b"", b"8 bytes.", &params(8, 1, 1, 4)).expect("valid");
    assert_eq!(text.len(), 8);
    assert!(derive_key(b"x", b"8 bytes.", &params(16, 1, 2, 4)).is_ok());
}

#[test]
fn short_pepper_is_a_derivation_error() {
    assert_eq!(
        derive_key(b"myphrase", b"7 bytes", &small()),
        Err(SecretError::Derivation(HashFault::SaltTooShort))
    );
    assert_eq!(
        generate_hash("myphrase", &store_with(""), &small()),
        Err(SecretError::Derivation(HashFault::SaltTooShort))
    );
    assert!(derive_key(b"myphrase", b"8 bytes.", &small()).is_ok());
}

#[test]
fn rejected_setting_comes_before_rejected_input() {
    assert_eq!(
        derive_key(b"myphrase", b"short", &params(64, 0, 1, 32)),
        Err(SecretError::Parameter(ParamFault::TimeTooSmall))
    );
}

#[test]
fn settings_are_looked_at_in_argon2_order() {
    assert_eq!(
        derive_key(b"myphrase", b"pepper123", &params(7, 0, 0, 0)),
        Err(SecretError::Parameter(ParamFault::MemoryTooLittle))
    );
    assert_eq!(
        derive_key(b"myphrase", b"pepper123", &params(8, 0, 0, 0)),
        Err(SecretError::Parameter(ParamFault::TimeTooSmall))
    );
    assert_eq!(
        derive_key(b"myphrase", b"pepper123", &params(8, 1, 0, 0)),
        Err(SecretError::Parameter(ParamFault::ThreadsTooFew))
    );
    assert_eq!(
        derive_key(b"myphrase", b"pepper123", &params(u32::MAX, 0, 0x100_0000, 0)),
        Err(SecretError::Parameter(ParamFault::TimeTooSmall))
    );
    assert_eq!(
        derive_key(b"myphrase", b"pepper123", &params(u32::MAX, 1, 0x100_0000, 0)),
        Err(SecretError::Parameter(ParamFault::ThreadsTooMany))
    );
    assert_eq!(
        derive_key(b"myphrase", b"pepper123", &params(8, 1, 1, 0)),
        Err(SecretError::Parameter(ParamFault::OutputTooShort))
    );
}

#[test]
fn refused_settings_are_a_parameter_error_whatever_their_size() {
    assert_eq!(
        derive_key(b"myphrase", b"pepper123", &params(0, 2, 1, usize::MAX)),
        Err(SecretError::Parameter(ParamFault::MemoryTooLittle))
    );
    assert_eq!(
        derive_key(b"myphrase", b"pepper123", &params(64, 2, 1, usize::MAX)),
        Err(SecretError::Parameter(ParamFault::OutputTooLong))
    );
    assert_eq!(
        derive_key(b"myphrase", b"pepper123", &params(u32::MAX, 0, 1, usize::MAX)),
        Err(SecretError::Parameter(ParamFault::TimeTooSmall))
    );
    assert_eq!(
        derive_key(b"myphrase", b"short", &params(u32::MAX, 2, 0, usize::MAX)),
        Err(SecretError::Parameter(ParamFault::ThreadsTooFew))
    );
    assert_eq!(
        generate_hash("myphrase", &store_with("pepper123"), &params(64, 2, 1, usize::MAX)),
        Err(SecretError::Parameter(ParamFault::OutputTooLong))
    );
}

#[test]
fn accepts_follows_argon2() {
    assert!(params(8, 1, 1, 4).accepts());
    assert!(params(16, 1, 2, 4).accepts());
    assert!(params(u32::MAX, u32::MAX, 0xFF_FFFF, 0xFFFF_FFFF).accepts());
    assert!(!params(7, 1, 1, 4).accepts());
    assert!(!params(15, 1, 2, 4).accepts());
    assert!(!params(8, 0, 1, 4).accepts());
    assert!(!params(8, 1, 0, 4).accepts());
    assert!(!params(u32::MAX, 1, 0x100_0000, 4).accepts());
    assert!(!params(8, 1, 1, 3).accepts());
    assert!(!params(8, 1, 1, 0x1_0000_0000).accepts());
    assert!(!params(u32::MAX, 1, u32::MAX, 4).accepts());
    for settings in [params(8, 1, 1, 4), params(15, 1, 2, 4), params(8, 0, 1, 4), params(8, 1, 1, 3)] {
        let derived = derive_key(b"myphrase", b"pepper123", &settings);
        assert_eq!(settings.accepts(), derived.is_ok());
    }
}

#[test]
fn address_limit_names_what_does_not_fit() {
    assert_eq!(params(64, 2, 1, 32).address_limit(), None);
    assert_eq!(params(0, 0, 0, 0).address_limit(), None);
    assert_eq!(
        params(64, 2, 1, usize::MAX).address_limit(),
        Some(HashFault::OutputTooLong)
    );
    assert_eq!(
        params(64, 2, 1, isize::MAX as usize + 1).address_limit(),
        Some(HashFault::OutputTooLong)
    );
    assert_eq!(params(64, 2, 1, isize::MAX as usize).address_limit(), None);
    if usize::BITS >= 64 {
        assert_eq!(params(u32::MAX, 2, 1, 32).address_limit(), None);
    } else {
        assert_eq!(params(u32::MAX, 2, 1, 32).address_limit(), Some(HashFault::MemoryTooMuch));
    }
}

#[test]
fn every_refusal_is_sorted_into_its_stage() {
    let cases = [
        (Argon2Fault::MemoryTooLittle, SecretError::Parameter(ParamFault::MemoryTooLittle)),
        (Argon2Fault::TimeTooSmall, SecretError::Parameter(ParamFault::TimeTooSmall)),
        (Argon2Fault::ThreadsTooFew, SecretError::Parameter(ParamFault::ThreadsTooFew)),
        (Argon2Fault::ThreadsTooMany, SecretError::Parameter(ParamFault::ThreadsTooMany)),
        (Argon2Fault::OutputTooShort, SecretError::Parameter(ParamFault::OutputTooShort)),
        (Argon2Fault::OutputTooLong, SecretError::Parameter(ParamFault::OutputTooLong)),
        (Argon2Fault::PasswordTooLong, SecretError::Derivation(HashFault::PasswordTooLong)),
        (Argon2Fault::SaltTooShort, SecretError::Derivation(HashFault::SaltTooShort)),
        (Argon2Fault::SaltTooLong, SecretError::Derivation(HashFault::SaltTooLong)),
        (Argon2Fault::Other, SecretError::Derivation(HashFault::Unexplained)),
    ];
    for (fault, error) in cases {
        assert_eq!(SecretError::from_fault(fault), error.clone());
        assert_eq!(conclude(Err(fault)), Err(error));
    }
}

#[test]
fn conclude_renders_the_hash() {
    assert_eq!(conclude(Ok(vec![0xDE, 0xAD, 0xBE, 0xEF])), Ok(String::from("deadbeef")));
    assert_eq!(conclude(Ok(Vec::new())), Ok(String::new()));
}

#[test]
fn errors_do_not_carry_the_phrase_or_the_pepper() {
    let error = generate_hash("myphrase", &store_with("tiny"), &small()).expect_err("short salt");
    assert!(!error.message().contains("myphrase"));
    assert!(!error.message().contains("tiny"));
    assert!(!format!("{:?}", error).contains("myphrase"));
    let error =
        generate_hash("myphrase", &store_with("pepper123"), &params(1, 2, 1, 32)).expect_err("m");
    assert!(!error.message().contains("myphrase"));
    assert!(!error.message().contains("pepper123"));
}

#[test]
fn example_scenario_fixture() {
    let store = store_with("pepper123");
    let first = generate_hash("myphrase", &store, &small()).expect("valid");
    let second = generate_hash("myphrase2", &store, &small()).expect("valid");
    assert_eq!(first, "158cf2d66f15238214f937d9d6381c432c7b0b3eaadedab6ab718fb3b1263d5c");
    assert_eq!(second, "6812c3b9eb9bd1a3aee32e433ece47fd3057286f40bf209ad99669bcd22d23ef");
    assert_ne!(first, second);
}
