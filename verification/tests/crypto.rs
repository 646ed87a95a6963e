use cim::crypto::{encrypt, random_alphanumeric_string, verify};

#[test]
fn encrypt_verify() {
    let password = String::from("ag1234567890123456789");
    let secret = random_alphanumeric_string(64);
    let h = encrypt(&password, &secret).unwrap();
    assert_eq!(h.len(), 415);
    assert!(verify(&h, &password, &secret).unwrap())
}
