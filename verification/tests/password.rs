use auth_core::error::CredentialError;
use auth_core::password::{
    beyond_range, check_policy, compare, comparison_from, credential_from, hash, hash_with_drawn,
    hash_with_salt, MAX_PARALLELISM, MAX_PASSWORD_LENGTH,
};

const KNOWN_CREDENTIAL: &str =
    "$argon2id$v=19$m=65536,t=2,p=1$c29tZXNhbHQ$CTFhFdXPJO1aFaMaO6Mm5c8y7cJHAph8ArZWb2GRPPc";

#[test]
fn limit_is_sixty_four_bytes() {
    assert_eq!(MAX_PASSWORD_LENGTH, 64);
}

#[test]
fn hashed_password_compares_true() {
    let credential = hash("correct horse battery staple").unwrap();
    assert_eq!(compare("correct horse battery staple", &credential), Ok(true));
}

#[test]
fn hashed_single_byte_password_compares_true() {
    let credential = hash("x").unwrap();
    assert_eq!(compare("x", &credential), Ok(true));
}

#[test]
fn hashed_password_at_the_limit_compares_true() {
    let password = "a".repeat(64);
    let credential = hash(&password).unwrap();
    assert_eq!(compare(&password, &credential), Ok(true));
}

#[test]
fn other_password_compares_false() {
    let credential = hash("hunter42").unwrap();
    assert_eq!(compare("hunter43", &credential), Ok(false));
    assert_eq!(compare("Hunter42", &credential), Ok(false));
    assert_eq!(compare("hunter42 ", &credential), Ok(false));
}

const CORPUS: [&str; 3] = ["alpha", "beta", "alpha1"];

fn matches_only_itself(stored: &str) {
    let credential = hash(stored).unwrap();
    for candidate in CORPUS.iter() {
        assert_eq!(compare(candidate, &credential), Ok(*candidate == stored));
    }
}

#[test]
fn first_of_the_corpus_matches_only_itself() {
    matches_only_itself(CORPUS[0]);
}

#[test]
fn second_of_the_corpus_matches_only_itself() {
    matches_only_itself(CORPUS[1]);
}

#[test]
fn third_of_the_corpus_matches_only_itself() {
    matches_only_itself(CORPUS[2]);
}

#[test]
fn hashing_twice_gives_two_credentials() {
    let first = hash("same password").unwrap();
    let second = hash("same password").unwrap();
    assert_ne!(first, second);
    assert_eq!(compare("same password", &first), Ok(true));
    assert_eq!(compare("same password", &second), Ok(true));
}

#[test]
fn credential_is_a_phc_string() {
    let credential = hash("hunter42").unwrap();
    assert!(credential.starts_with("$argon2id$v=19$m=19456,t=2,p=1$"));
    assert_eq!(credential.split('$').count(), 6);
    assert_ne!(credential, "hunter42");
}

#[test]
fn hash_rejects_empty_password() {
    assert_eq!(hash(""), Err(CredentialError::EmptyCredential));
}

#[test]
fn hash_rejects_sixty_five_bytes() {
    let password = "a".repeat(65);
    assert_eq!(hash(&password), Err(CredentialError::CredentialTooLong(64)));
}

#[test]
fn hash_accepts_sixty_four_bytes() {
    let password = "b".repeat(64);
    assert!(hash(&password).is_ok());
}

#[test]
fn length_is_counted_in_bytes() {
    let thirty_two_chars = "é".repeat(32);
    assert_eq!(thirty_two_chars.len(), 64);
    assert_eq!(check_policy(&thirty_two_chars), Ok(()));
    let thirty_three_chars = "é".repeat(33);
    assert_eq!(thirty_three_chars.chars().count(), 33);
    assert_eq!(check_policy(&thirty_three_chars), Err(CredentialError::CredentialTooLong(64)));
    assert_eq!(hash(&thirty_three_chars), Err(CredentialError::CredentialTooLong(64)));
}

#[test]
fn check_policy_boundaries() {
    assert_eq!(check_policy(""), Err(CredentialError::EmptyCredential));
    assert_eq!(check_policy("a"), Ok(()));
    assert_eq!(check_policy(&"a".repeat(64)), Ok(()));
    assert_eq!(check_policy(&"a".repeat(65)), Err(CredentialError::CredentialTooLong(64)));
    assert_eq!(check_policy(&"a".repeat(1000)), Err(CredentialError::CredentialTooLong(64)));
}

#[test]
fn compare_rejects_text_that_is_no_hash() {
    assert_eq!(
        compare("hunter42", "not-a-valid-hash"),
        Err(CredentialError::InvalidCredentialFormat)
    );
    assert_eq!(compare("hunter42", ""), Err(CredentialError::InvalidCredentialFormat));
    assert_eq!(compare("hunter42", "hunter42"), Err(CredentialError::InvalidCredentialFormat));
}

#[test]
fn compare_holds_the_candidate_to_the_policy_first() {
    assert_eq!(compare("", KNOWN_CREDENTIAL), Err(CredentialError::EmptyCredential));
    assert_eq!(compare("", "not-a-valid-hash"), Err(CredentialError::EmptyCredential));
    let long = "a".repeat(65);
    assert_eq!(compare(&long, KNOWN_CREDENTIAL), Err(CredentialError::CredentialTooLong(64)));
    assert_eq!(compare(&long, "not-a-valid-hash"), Err(CredentialError::CredentialTooLong(64)));
}

#[test]
fn compare_against_a_known_credential() {
    assert_eq!(compare("password", KNOWN_CREDENTIAL), Ok(true));
    assert_eq!(compare("sassword", KNOWN_CREDENTIAL), Ok(false));
}

#[test]
fn compare_against_a_credential_of_another_algorithm_is_false() {
    let stored = "$scrypt$ln=16,r=8,p=1$c29tZXNhbHQ$CTFhFdXPJO1aFaMaO6Mm5c8y7cJHAph8ArZWb2GRPPc";
    assert_eq!(compare("password", stored), Ok(false));
}

#[test]
fn compare_against_a_credential_without_digest_is_false() {
    assert_eq!(compare("password", "$argon2id$v=19$m=65536,t=2,p=1$c29tZXNhbHQ"), Ok(false));
}

#[test]
fn derivation_outcome_maps_to_hash_outcome() {
    assert_eq!(credential_from::<u8>(Ok("$x$y".to_string())), Ok("$x$y".to_string()));
    assert_eq!(credential_from::<u8>(Err(7)), Err(CredentialError::HashingFailure));
}

#[test]
fn verification_outcome_maps_to_compare_outcome() {
    assert_eq!(comparison_from::<u8>(Ok(true)), Ok(true));
    assert_eq!(comparison_from::<u8>(Ok(false)), Ok(false));
    assert_eq!(comparison_from::<u8>(Err(7)), Err(CredentialError::InvalidCredentialFormat));
}

const DIGEST: &str = "CTFhFdXPJO1aFaMaO6Mm5c8y7cJHAph8ArZWb2GRPPc";

fn stored_with(params: &str) -> String {
    format!("$argon2id$v=19${}$c29tZXNhbHQ${}", params, DIGEST)
}

fn pairs(params: &[(&str, &str)]) -> Vec<(Vec<u8>, Vec<u8>)> {
    params.iter().map(|(name, value)| (name.as_bytes().to_vec(), value.as_bytes().to_vec())).collect()
}

#[test]
fn same_salt_gives_the_same_credential() {
    let first = hash_with_salt("hunter42", "c29tZXNhbHRzYWx0").unwrap();
    let second = hash_with_salt("hunter42", "c29tZXNhbHRzYWx0").unwrap();
    assert_eq!(first, second);
    assert_eq!(
        first,
        "$argon2id$v=19$m=19456,t=2,p=1$c29tZXNhbHRzYWx0$NAwNwNoc/RuUHDIqQxZAtRdBjTi3YxkgKPGrkIfRc0I"
    );
}

#[test]
fn credential_holds_its_salt() {
    let credential = hash_with_salt("hunter42", "YW5vdGhlcnNhbHQ").unwrap();
    let fields: Vec<&str> = credential.split('$').collect();
    assert_eq!(fields[1..5], ["argon2id", "v=19", "m=19456,t=2,p=1", "YW5vdGhlcnNhbHQ"]);
    assert_eq!(compare("hunter42", &credential), Ok(true));
    assert_eq!(compare("hunter43", &credential), Ok(false));
}

#[test]
fn other_salt_or_password_gives_another_credential() {
    let base = hash_with_salt("hunter42", "c29tZXNhbHRzYWx0").unwrap();
    assert_ne!(hash_with_salt("hunter42", "c29tZXNhbHRzYWx1").unwrap(), base);
    assert_ne!(hash_with_salt("hunter43", "c29tZXNhbHRzYWx0").unwrap(), base);
}

#[test]
fn text_that_is_no_salt_fails_the_derivation() {
    assert_eq!(hash_with_salt("hunter42", ""), Err(CredentialError::HashingFailure));
    assert_eq!(hash_with_salt("hunter42", "abc"), Err(CredentialError::HashingFailure));
    assert_eq!(hash_with_salt("hunter42", "not a salt!"), Err(CredentialError::HashingFailure));
    assert_eq!(hash_with_salt("hunter42", "c29tZQ"), Err(CredentialError::HashingFailure));
    assert_eq!(hash_with_salt("hunter42", &"a".repeat(65)), Err(CredentialError::HashingFailure));
}

#[test]
fn hashing_under_a_salt_holds_the_plaintext_to_the_policy() {
    assert_eq!(hash_with_salt("", "c29tZXNhbHRzYWx0"), Err(CredentialError::EmptyCredential));
    assert_eq!(hash_with_salt("", ""), Err(CredentialError::EmptyCredential));
    assert_eq!(
        hash_with_salt(&"a".repeat(65), "c29tZXNhbHRzYWx0"),
        Err(CredentialError::CredentialTooLong(64))
    );
}

#[test]
fn range_of_parallelism_is_that_of_argon2() {
    assert_eq!(MAX_PARALLELISM, 16_777_215);
    assert_eq!(MAX_PARALLELISM, argon2::Params::MAX_P_COST);
}

#[test]
fn parallelism_within_the_range_or_unread_is_not_beyond_it() {
    assert!(!beyond_range(&pairs(&[])));
    assert!(!beyond_range(&pairs(&[("m", "19456"), ("t", "2"), ("p", "1")])));
    assert!(!beyond_range(&pairs(&[("p", "16777215")])));
    assert!(!beyond_range(&pairs(&[("p", "0")])));
    assert!(!beyond_range(&pairs(&[("m", "4294967295"), ("t", "4294967295")])));
    assert!(!beyond_range(&pairs(&[("P", "536870912"), ("pp", "536870912")])));
    assert!(!beyond_range(&pairs(&[("p", "many")])));
    assert!(!beyond_range(&pairs(&[("p", "")])));
    assert!(!beyond_range(&pairs(&[("p", "-536870912")])));
}

#[test]
fn parallelism_above_the_range_is_beyond_it() {
    assert!(beyond_range(&pairs(&[("p", "16777216")])));
    assert!(beyond_range(&pairs(&[("p", "536870912")])));
    assert!(beyond_range(&pairs(&[("p", "4294967295")])));
    assert!(beyond_range(&pairs(&[("p", "99999999999999999999999999")])));
    assert!(beyond_range(&pairs(&[("p", "0536870912")])));
    assert!(beyond_range(&pairs(&[("m", "65536"), ("p", "536870912"), ("t", "2")])));
}

#[test]
fn last_parallelism_is_the_one_that_counts() {
    assert!(beyond_range(&pairs(&[("p", "1"), ("p", "536870912")])));
    assert!(!beyond_range(&pairs(&[("p", "536870912"), ("p", "1")])));
    assert!(!beyond_range(&pairs(&[("p", "536870912"), ("m", "8"), ("p", "x")])));
}

#[test]
fn stored_parallelism_that_overflows_compares_false() {
    for params in ["m=65536,t=2,p=536870912", "m=4294967295,t=2,p=4294967295",
        "m=65536,t=2,p=16777216", "m=65536,t=2,p=1,p=536870912", "p=1073741824"] {
        assert_eq!(compare("password", &stored_with(params)), Ok(false));
    }
}

#[test]
fn stored_parallelism_is_the_last_one_named() {
    let stored = stored_with("p=536870912,m=65536,t=2,p=1");
    assert_eq!(compare("password", &stored), Ok(true));
    assert_eq!(compare("sassword", &stored), Ok(false));
}

#[test]
fn stored_cost_of_any_size_is_verified() {
    for params in ["m=8,t=65,p=1", "m=2048,t=1,p=256", "m=65536,t=2,p=16777215",
        "m=sixty,t=2,p=1", "m=65536,t=2,p=one"] {
        assert_eq!(compare("password", &stored_with(params)), Ok(false));
    }
}

#[test]
fn stored_cost_that_argon2_refuses_compares_false() {
    for params in ["m=7,t=2,p=1", "m=65536,t=0,p=1", "m=65536,t=2,p=0", "m=8,t=1,p=2",
        "m=065536,t=2,p=1", "m=4294967296,t=2,p=1", "m=65536,t=4294967296,p=1"] {
        assert_eq!(compare("password", &stored_with(params)), Ok(false));
    }
}

#[test]
fn drawn_salt_is_the_salt_of_the_credential() {
    let drawn = Some("c29tZXNhbHRzYWx0".to_string());
    assert_eq!(hash_with_drawn("hunter42", drawn), hash_with_salt("hunter42", "c29tZXNhbHRzYWx0"));
}

#[test]
fn without_a_salt_nothing_is_hashed() {
    assert_eq!(hash_with_drawn("hunter42", None), Err(CredentialError::HashingFailure));
    assert_eq!(hash_with_drawn("", None), Err(CredentialError::EmptyCredential));
    assert_eq!(
        hash_with_drawn(&"a".repeat(65), None),
        Err(CredentialError::CredentialTooLong(64))
    );
}

#[test]
fn fresh_salt_has_the_recommended_length() {
    let credential = hash("hunter42").unwrap();
    let fields: Vec<&str> = credential.split('$').collect();
    assert_eq!(fields[4].len(), 22);
    assert_eq!(hash_with_salt("hunter42", fields[4]), Ok(credential.clone()));
}
