use passvault::keywrap;

#[test]
fn wrap_unwrap_round_trip() {
    let kek: Vec<u8> = (0u8..32).collect();
    let dek: Vec<u8> = (100u8..132).collect();
    let wrapped = keywrap::wrap(&kek, &dek);
    assert_eq!(wrapped.len(), 40);
    assert_eq!(keywrap::unwrap(&kek, &wrapped).unwrap(), dek);
}

#[test]
fn wrap_is_deterministic() {
    let kek: Vec<u8> = vec![3u8; 32];
    let dek: Vec<u8> = vec![5u8; 32];
    assert_eq!(keywrap::wrap(&kek, &dek), keywrap::wrap(&kek, &dek));
}

#[test]
fn unwrap_rejects_wrong_kek() {
    let kek: Vec<u8> = vec![1u8; 32];
    let wrong_kek: Vec<u8> = vec![2u8; 32];
    let dek: Vec<u8> = vec![42u8; 32];
    let wrapped = keywrap::wrap(&kek, &dek);
    assert!(keywrap::unwrap(&wrong_kek, &wrapped).is_err());
}

#[test]
fn unwrap_rejects_tampered_wrap() {
    let kek: Vec<u8> = vec![1u8; 32];
    let dek: Vec<u8> = vec![42u8; 32];
    let wrapped = keywrap::wrap(&kek, &dek);
    for i in 0..wrapped.len() {
        let mut tampered = wrapped.clone();
        tampered[i] ^= 0x01;
        assert!(keywrap::unwrap(&kek, &tampered).is_err(), "byte {} went undetected", i);
    }
}
