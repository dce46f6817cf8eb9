use passvault::envelope::Cipher;
use passvault::export::{decrypt_and_export, export_csv};
use passvault::vault::LoginData;

fn row(id: usize, name: &str, username: &str, date: &str, password: &str) -> LoginData {
    LoginData {
        id,
        name: name.to_string(),
        username: username.to_string(),
        date_modified: date.to_string(),
        password: password.to_string(),
    }
}

fn test_cipher() -> Cipher {
    let kek: Vec<u8> = vec![11u8; 32];
    let dek: Vec<u8> = vec![13u8; 32];
    let wrap = passvault::keywrap::wrap(&kek, &dek);
    Cipher::from_unwrap(kek, wrap).unwrap()
}

#[test]
fn export_csv_exact_document() {
    let data = vec![
        row(1, "mail", "me@mail", "Mon, 1 Jan 2024 10:00:00 +0000", "tok1"),
        row(2, "bank", "me@bank", "Tue, 2 Jan 2024 11:00:00 +0000", "tok2"),
    ];
    let passwords = vec!["first pass".to_string(), "second pass".to_string()];
    let doc = String::from_utf8(export_csv(&data, &passwords)).unwrap();
    assert_eq!(
        doc,
        "name,username,password,date\n\
         mail,me@mail,first pass,\"Mon, 1 Jan 2024 10:00:00 +0000\"\n\
         bank,me@bank,second pass,\"Tue, 2 Jan 2024 11:00:00 +0000\"\n"
    );
}

#[test]
fn export_csv_escapes_special_fields() {
    let data = vec![row(1, "a,b", "say \"hi\"", "d", "tok")];
    let passwords = vec!["line\nbreak".to_string()];
    let doc = String::from_utf8(export_csv(&data, &passwords)).unwrap();
    assert_eq!(
        doc,
        "name,username,password,date\n\"a,b\",\"say \"\"hi\"\"\",\"line\nbreak\",d\n"
    );
}

#[test]
fn export_csv_of_no_records_is_just_the_header() {
    let doc = String::from_utf8(export_csv(&Vec::new(), &Vec::new())).unwrap();
    assert_eq!(doc, "name,username,password,date\n");
}

#[test]
fn decrypt_and_export_round_trips_passwords() {
    let cipher = test_cipher();
    let data = vec![
        row(1, "mail", "me@mail", "d1", &cipher.encrypt(b"alpha")),
        row(2, "bank", "me@bank", "d2", &cipher.encrypt(b"beta")),
    ];
    let doc = String::from_utf8(decrypt_and_export(&data, &cipher).unwrap()).unwrap();
    assert_eq!(
        doc,
        "name,username,password,date\nmail,me@mail,alpha,d1\nbank,me@bank,beta,d2\n"
    );
}

#[test]
fn decrypt_and_export_of_no_records_always_succeeds() {
    let cipher = test_cipher();
    let doc = decrypt_and_export(&Vec::new(), &cipher).unwrap();
    assert_eq!(String::from_utf8(doc).unwrap(), "name,username,password,date\n");
}

#[test]
fn decrypt_and_export_fails_closed_on_a_bad_token() {
    let cipher = test_cipher();
    let data = vec![
        row(1, "mail", "me@mail", "d1", &cipher.encrypt(b"alpha")),
        row(2, "bank", "me@bank", "d2", "not a token"),
    ];
    assert!(decrypt_and_export(&data, &cipher).is_err());
}
