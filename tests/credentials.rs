use backend::{check_password, hash_password, hash_password_with_salt, verify_password, Outcome};

fn flip_bit(s: &str, byte: usize, bit: u8) -> Vec<u8> {
    let mut b = s.as_bytes().to_vec();
    b[byte] ^= 1 << bit;
    b
}

#[test]
fn hashed_password_verifies() {
    let h = hash_password("correct horse").unwrap();
    assert!(h.starts_with("$argon2id$"));
    assert_ne!(h, "correct horse");
    assert!(verify_password("correct horse", &h));
    assert_eq!(check_password("correct horse", &h), Ok(true));
}

#[test]
fn salts_differ_between_calls() {
    let a = hash_password("pw").unwrap();
    let b = hash_password("pw").unwrap();
    assert_ne!(a, b);
    assert!(verify_password("pw", &a));
    assert!(verify_password("pw", &b));
}

#[test]
fn single_bit_change_of_password_fails() {
    let h = hash_password("secret").unwrap();
    for (byte, bit) in [(0, 0), (3, 2), (5, 6)] {
        let changed = String::from_utf8(flip_bit("secret", byte, bit)).unwrap();
        assert!(!verify_password(&changed, &h), "{}", changed);
    }
}

#[test]
fn single_bit_change_of_hash_fails() {
    let h = hash_password("secret").unwrap();
    // the last characters hold the Argon2 output
    let n = h.len();
    for (byte, bit) in [(n - 2, 0), (n - 20, 1)] {
        let changed = String::from_utf8(flip_bit(&h, byte, bit)).unwrap();
        assert!(!verify_password("secret", &changed));
    }
}

#[test]
fn malformed_hash_is_not_a_match() {
    assert!(!verify_password("pw", "not a hash"));
    assert_eq!(check_password("pw", "not a hash"), Err(Outcome::InternalError));
    assert!(!verify_password("pw", ""));
}

#[test]
fn hashing_under_a_fixed_salt_is_deterministic() {
    let salt = "c29tZXNhbHRzb21lc2FsdA";
    let a = hash_password_with_salt("pw", salt).unwrap();
    let b = hash_password_with_salt("pw", salt).unwrap();
    assert_eq!(a, b);
    assert!(a.contains(salt));
    assert!(verify_password("pw", &a));
    assert_ne!(hash_password_with_salt("pw2", salt).unwrap(), a);
}

#[test]
fn invalid_salt_is_internal_error() {
    assert_eq!(hash_password_with_salt("pw", "x"), Err(Outcome::InternalError));
    assert_eq!(hash_password_with_salt("pw", "not b64 !!!!!!!!!!!!!"), Err(Outcome::InternalError));
}

#[test]
fn salts_of_the_accepted_shape_hash() {
    for salt in ["AAAAAAAAAAAAAAAAAAAAAA", "abcdefghijklmnopqrstuQ", "0123456789+/012345678g", "ZZZZZZZZZZZZZZZZZZZZZw"] {
        assert_eq!(salt.len(), 22);
        assert!(hash_password_with_salt("pw", salt).is_ok(), "{}", salt);
    }
    // a last character with stray bits is not canonical Base64
    assert_eq!(hash_password_with_salt("pw", "AAAAAAAAAAAAAAAAAAAAAB"), Err(Outcome::InternalError));
}

#[test]
fn random_salts_have_the_accepted_shape() {
    let h = hash_password("pw").unwrap();
    let salt = h.split('$').nth(4).unwrap();
    assert_eq!(salt.len(), 22);
    assert!("AQgw".contains(salt.chars().last().unwrap()));
}
