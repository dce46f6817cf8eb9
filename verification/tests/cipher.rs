use passvault::envelope::Cipher;

fn test_cipher() -> Cipher {
    let kek = base64_url::decode("QR66Cx_3lGU-R3TMWEivbx8I00qXgdHMdJxer92LSo8").unwrap();
    let wrap = base64_url::decode("3PV8v4uITiZ9scpB7usBBoFPClGoH5XnMQSeneM3_Z3FfbZ6PzE1ag").unwrap();
    Cipher::from_unwrap(kek, wrap).unwrap()
}

#[test]
fn create() {
    let kek = base64_url::decode("QR66Cx_3lGU-R3TMWEivbx8I00qXgdHMdJxer92LSo8").unwrap();
    let wrap = base64_url::decode("3PV8v4uITiZ9scpB7usBBoFPClGoH5XnMQSeneM3_Z3FfbZ6PzE1ag").unwrap();
    assert!(Cipher::from_unwrap(kek, wrap).is_ok());
}

#[test]
fn decrypt() {
    let kek = base64_url::decode("QR66Cx_3lGU-R3TMWEivbx8I00qXgdHMdJxer92LSo8").unwrap();
    let wrap = base64_url::decode("3PV8v4uITiZ9scpB7usBBoFPClGoH5XnMQSeneM3_Z3FfbZ6PzE1ag").unwrap();
    let cipher = Cipher::from_unwrap(kek, wrap).unwrap();
    let plaintext = "Secrets!";
    let ciphertext = cipher.encrypt(plaintext.as_bytes());
    let decrypted = cipher.decrypt(&ciphertext);
    assert!(decrypted.is_ok());
    assert_eq!(decrypted.unwrap(), plaintext.as_bytes());
}

#[test]
fn envelope_round_trip_arbitrary_bytes() {
    let cipher = test_cipher();
    let payload: Vec<u8> = vec![0, 1, 2, 3, 255, 254, 128, 127, 10, 13, 34, 44, 0];
    let token = cipher.encrypt(&payload);
    assert_eq!(cipher.decrypt(&token).unwrap(), payload);
}

#[test]
fn envelope_round_trip_empty_payload() {
    let cipher = test_cipher();
    let token = cipher.encrypt(b"");
    assert_eq!(cipher.decrypt(&token).unwrap(), Vec::<u8>::new());
}

#[test]
fn envelope_tamper_detection_every_byte() {
    let cipher = test_cipher();
    let token = cipher.encrypt(b"attack at dawn");
    let chars: Vec<char> = token.chars().collect();
    for i in 0..chars.len() {
        let mut tampered = chars.clone();
        tampered[i] = if chars[i] == 'A' { 'B' } else { 'A' };
        let tampered: String = tampered.iter().collect();
        assert!(cipher.decrypt(&tampered).is_err(), "byte {} went undetected", i);
    }
}

#[test]
fn envelope_rejects_wrong_key() {
    let cipher = test_cipher();
    let kek2: Vec<u8> = vec![7u8; 32];
    let dek2: Vec<u8> = vec![9u8; 32];
    let wrap2 = passvault::keywrap::wrap(&kek2, &dek2);
    let other = Cipher::from_unwrap(kek2, wrap2).unwrap();
    let token = cipher.encrypt(b"for your eyes only");
    assert!(other.decrypt(&token).is_err());
}

#[test]
fn envelope_rejects_malformed_token() {
    let cipher = test_cipher();
    assert!(cipher.decrypt("no fernet token at all").is_err());
    assert!(cipher.decrypt("").is_err());
}

#[test]
fn reveal_password_round_trip() {
    let cipher = test_cipher();
    let token = cipher.encrypt("hunter2".as_bytes());
    assert_eq!(cipher.reveal_password(&token).unwrap(), "hunter2");
}

#[test]
fn reveal_password_rejects_non_text_payload() {
    let cipher = test_cipher();
    let token = cipher.encrypt(&[0xffu8, 0xfe, 0x00]);
    assert!(cipher.reveal_password(&token).is_err());
}

#[test]
fn generate_key_is_base64_of_32_bytes() {
    let key = Cipher::generate_key();
    let bytes = base64_url::decode(&key).unwrap();
    assert_eq!(bytes.len(), 32);
}
