use passvault::metadata::Metadata;

fn sample() -> (Vec<u8>, Vec<u8>, Metadata) {
    let salt: Vec<u8> = (1u8..17).collect();
    let wrap: Vec<u8> = (50u8..90).collect();
    let md = Metadata::new(base64_url::encode(&wrap), [base64_url::encode(&salt)]);
    (salt, wrap, md)
}

#[test]
fn metadata_fields_decode() {
    let (salt, wrap, md) = sample();
    assert_eq!(md.kek_salt().unwrap(), salt);
    assert_eq!(md.wrap().unwrap(), wrap);
}

#[test]
fn metadata_json_exact_text() {
    let (salt, wrap, md) = sample();
    let expected = format!(
        "{{\"salts\":[\"{}\"],\"wrap\":\"{}\"}}",
        base64_url::encode(&salt),
        base64_url::encode(&wrap)
    );
    assert_eq!(md.to_json(), expected);
}

#[test]
fn metadata_json_round_trip() {
    let (salt, wrap, md) = sample();
    let reloaded = Metadata::from_json(&md.to_json()).unwrap();
    assert_eq!(reloaded.kek_salt().unwrap(), salt);
    assert_eq!(reloaded.wrap().unwrap(), wrap);
}

#[test]
fn metadata_non_json_is_corrupted() {
    let r = Metadata::from_json("this is no json document");
    assert!(r.err().unwrap().is_corrupted());
    let r = Metadata::from_json("{\"wrap\":\"x\",\"salts\":[\"y\"]}");
    assert!(r.err().unwrap().is_corrupted());
    let r = Metadata::from_json("");
    assert!(r.err().unwrap().is_corrupted());
    let r = Metadata::from_json("{ \"salts\": [\"y\"], \"wrap\": \"x\" }");
    assert!(r.err().unwrap().is_corrupted());
}

#[test]
fn metadata_trailing_garbage_is_corrupted() {
    let (_, _, md) = sample();
    let mut text = md.to_json();
    text.push(' ');
    assert!(Metadata::from_json(&text).err().unwrap().is_corrupted());
}

#[test]
fn metadata_truncated_wrap_is_corrupted() {
    let salt: Vec<u8> = (1u8..17).collect();
    let short: Vec<u8> = (50u8..89).collect();
    let md = Metadata::new(base64_url::encode(&short), [base64_url::encode(&salt)]);
    assert!(md.wrap().err().unwrap().is_corrupted());
}

#[test]
fn metadata_undecodable_field_is_corrupted() {
    let md = Metadata::new("!!!not-base64!!!".to_string(), ["also not base64 ***".to_string()]);
    assert!(md.wrap().err().unwrap().is_corrupted());
    assert!(md.kek_salt().err().unwrap().is_corrupted());
}
