use shade::cert::{
    generate_keys, generate_public_from_private, public_from_secret, CertError, KEY_LEN,
};

const ALICE_PRIVATE: &str = "dwdtCnMYpX08FsFyUbJmRd9ML4frwJkqsXf7pR25LCo=";
const ALICE_PUBLIC: &str = "hSDwCYkwp1R0i33ctD73Wg2/Og0mOBr066SpjqqbTmo=";
const BOB_PRIVATE: &str = "XasIfmJKikt54X+Lg4AO5m87sSkmGLb9HC+LJ/+I4Os=";
const BOB_PUBLIC: &str = "3p7bfXt9wbTTW2HC7OQ1Nz+DQ8hbeGdNrfx+FG+IK08=";

#[test]
fn public_key_of_known_secrets() {
    assert_eq!(generate_public_from_private(ALICE_PRIVATE), Ok(ALICE_PUBLIC.to_string()));
    assert_eq!(generate_public_from_private(BOB_PRIVATE), Ok(BOB_PUBLIC.to_string()));
}

#[test]
fn white_space_around_the_private_key_is_passed_over() {
    let padded = format!("  {}\n", ALICE_PRIVATE);
    assert_eq!(generate_public_from_private(&padded), Ok(ALICE_PUBLIC.to_string()));
    let tabbed = format!("\t{}\r\n", BOB_PRIVATE);
    assert_eq!(generate_public_from_private(&tabbed), Ok(BOB_PUBLIC.to_string()));
}

#[test]
fn private_key_that_is_not_base64_is_turned_down() {
    assert_eq!(generate_public_from_private("not base64!"), Err(CertError::InvalidEncoding));
    assert_eq!(
        generate_public_from_private("dwdtCnMY pX08FsFyUbJmRd9ML4frwJkqsXf7pR25LCo="),
        Err(CertError::InvalidEncoding)
    );
}

#[test]
fn private_key_of_another_length_is_turned_down() {
    assert_eq!(generate_public_from_private("c2hvcnQ="), Err(CertError::InvalidLength));
    assert_eq!(generate_public_from_private(""), Err(CertError::InvalidLength));
    assert_eq!(generate_public_from_private("   "), Err(CertError::InvalidLength));
}

#[test]
fn cert_error_messages() {
    assert_eq!(CertError::InvalidEncoding.message(), "private key is not valid base64");
    assert_eq!(CertError::InvalidLength.message(), "private key must be 32 bytes");
    assert_eq!(KEY_LEN, 32);
}

#[test]
fn generated_pair_belongs_together() {
    let (private_key, public_key) = generate_keys().unwrap();
    assert_eq!(private_key.len(), 44);
    assert_eq!(public_key.len(), 44);
    assert_ne!(private_key, public_key);
    assert_eq!(generate_public_from_private(&private_key), Ok(public_key));
}

#[test]
fn generated_pairs_differ() {
    let first = generate_keys().unwrap();
    let second = generate_keys().unwrap();
    assert_ne!(first.0, second.0);
    assert_ne!(first.1, second.1);
}

#[test]
fn public_key_of_secret_bytes() {
    let alice: [u8; 32] = [
        0x77, 0x07, 0x6d, 0x0a, 0x73, 0x18, 0xa5, 0x7d, 0x3c, 0x16, 0xc1, 0x72, 0x51, 0xb2, 0x66,
        0x45, 0xdf, 0x4c, 0x2f, 0x87, 0xeb, 0xc0, 0x99, 0x2a, 0xb1, 0x77, 0xfb, 0xa5, 0x1d, 0xb9,
        0x2c, 0x2a,
    ];
    assert_eq!(public_from_secret(&alice), Ok(ALICE_PUBLIC.to_string()));
    let zero = public_from_secret(&[0u8; 32]).unwrap();
    assert_eq!(zero.len(), 44);
    assert_ne!(zero, ALICE_PUBLIC);
}

#[test]
fn secret_of_another_length_is_turned_down() {
    assert_eq!(public_from_secret(&[]), Err(CertError::InvalidLength));
    assert_eq!(public_from_secret(&[1u8; 31]), Err(CertError::InvalidLength));
    assert_eq!(public_from_secret(&[1u8; 33]), Err(CertError::InvalidLength));
}

#[test]
fn every_kind_of_white_space_is_passed_over() {
    let spaces = [
        '\u{9}', '\u{a}', '\u{b}', '\u{c}', '\u{d}', ' ', '\u{85}', '\u{a0}', '\u{1680}',
        '\u{2000}', '\u{2005}', '\u{200a}', '\u{2028}', '\u{2029}', '\u{202f}', '\u{205f}',
        '\u{3000}',
    ];
    for space in spaces {
        let padded = format!("{}{}{}", space, ALICE_PRIVATE, space);
        assert_eq!(generate_public_from_private(&padded), Ok(ALICE_PUBLIC.to_string()));
    }
}

#[test]
fn other_characters_are_not_passed_over() {
    for other in ['\u{8}', '\u{e}', '\u{1f}', '\u{180e}', '\u{200b}', '\u{2060}', '\u{feff}', '_'] {
        let padded = format!("{}{}", other, ALICE_PRIVATE);
        assert_eq!(generate_public_from_private(&padded), Err(CertError::InvalidEncoding));
        let padded = format!("{}{}", ALICE_PRIVATE, other);
        assert_eq!(generate_public_from_private(&padded), Err(CertError::InvalidEncoding));
    }
}

#[test]
fn encoded_keys_have_forty_four_characters_of_base64() {
    let (private_key, public_key) = generate_keys().unwrap();
    for text in [private_key, public_key] {
        assert_eq!(text.len(), 44);
        assert!(text.ends_with('='));
        assert!(text
            .chars()
            .all(|c| c.is_ascii_alphanumeric() || c == '+' || c == '/' || c == '='));
    }
}
