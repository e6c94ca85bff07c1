use auth_backend::crypto::{check_hash, checked, hash_password, verify_password, HashError, DEFAULT_COST};

#[test]
fn hash_of_hunter2_under_the_zero_salt() {
    let hash = hash_password("hunter2", &[0u8; 16]);
    assert_eq!(hash, "$2b$12$......................21jzCB1r6pN6rp5O2Ev0ejjTAboskKm");
}

#[test]
fn hash_names_the_default_cost() {
    assert_eq!(DEFAULT_COST, 12);
    let hash = hash_password("", &[1u8; 16]);
    assert_eq!(hash.len(), 60);
    assert!(hash.starts_with("$2b$12$"));
}

#[test]
fn hashing_is_deterministic_under_one_salt() {
    let salt = [3u8; 16];
    let first = hash_password("correct horse", &salt);
    let second = hash_password("correct horse", &salt);
    assert_eq!(first, second);
}

#[test]
fn another_salt_gives_another_hash() {
    let first = hash_password("correct horse", &[3u8; 16]);
    let second = hash_password("correct horse", &[4u8; 16]);
    assert_ne!(first, second);
}

#[test]
fn own_hash_is_accepted() {
    let hash = hash_password("hunter2", &[7u8; 16]);
    assert_eq!(verify_password("hunter2", &hash), Ok(true));
    assert!(check_hash("hunter2", &hash));
}

#[test]
fn other_password_is_refused() {
    let hash = hash_password("hunter2", &[7u8; 16]);
    assert_eq!(verify_password("hunter3", &hash), Ok(false));
    assert!(!check_hash("", &hash));
}

#[test]
fn hash_made_elsewhere_is_accepted() {
    let hash = "$2a$04$UuTkLRZZ6QofpDOlMz32MuuxEHA43WOemOYHPz6.SjsVsyO1tDU96";
    assert_eq!(verify_password("password", hash), Ok(true));
    assert_eq!(verify_password("Password", hash), Ok(false));
    assert!(check_hash("password", hash));
    assert!(!check_hash("Password", hash));
}

#[test]
fn malformed_hash_is_an_error_and_no_panic() {
    assert_eq!(verify_password("hunter2", "not a hash"), Err(HashError::Malformed));
    assert_eq!(verify_password("hunter2", ""), Err(HashError::Malformed));
    assert_eq!(
        verify_password("hunter2", "$2b$ab$......................21jzCB1r6pN6rp5O2Ev0ejjTAboskKm"),
        Err(HashError::Malformed)
    );
    assert_eq!(
        verify_password("hunter2", "$2b$03$......................21jzCB1r6pN6rp5O2Ev0ejjTAboskKm"),
        Err(HashError::Malformed)
    );
    assert_eq!(
        verify_password("hunter2", "$9z$04$......................21jzCB1r6pN6rp5O2Ev0ejjTAboskKm"),
        Err(HashError::Malformed)
    );
    assert!(!check_hash("hunter2", "not a hash"));
}

#[test]
fn plaintext_is_no_hash_of_itself() {
    assert_eq!(verify_password("hunter2", "hunter2"), Err(HashError::Malformed));
    assert!(!check_hash("hunter2", "hunter2"));
}

#[test]
fn checked_keeps_an_answer_and_names_a_failure() {
    assert_eq!(checked(Ok(true)), Ok(true));
    assert_eq!(checked(Ok(false)), Ok(false));
    assert_eq!(
        checked(Err(bcrypt::BcryptError::InvalidHash(String::from("x")))),
        Err(HashError::Malformed)
    );
    assert_eq!(checked(Err(bcrypt::BcryptError::CostNotAllowed(3))), Err(HashError::Malformed));
}

#[test]
fn passwords_that_agree_on_72_bytes_share_a_hash() {
    let mut long = "a".repeat(72);
    let hash = hash_password(&long, &[9u8; 16]);
    long.push('x');
    assert_eq!(verify_password(&long, &hash), Ok(true));
    assert_eq!(verify_password(&"a".repeat(71), &hash), Ok(false));
}
