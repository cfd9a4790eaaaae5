use shade::ident::parse_id;
use shade::socket::{revoke_request, SocketMessage};
use shade::storage::KeyPair;

fn written(id: u128) -> String {
    match revoke_request(id) {
        SocketMessage::Revoke { id } => id,
        other => panic!("{:?}", other),
    }
}

#[test]
fn parse_hyphenated_identifier() {
    assert_eq!(
        parse_id("550e8400-e29b-41d4-a716-446655440000"),
        Ok(0x550e8400_e29b_41d4_a716_446655440000u128)
    );
}

#[test]
fn parse_other_written_forms() {
    let value = 0xa1a2a3a4_b1b2_c1c2_d1d2_d3d4d5d6d7d8u128;
    assert_eq!(parse_id("a1a2a3a4b1b2c1c2d1d2d3d4d5d6d7d8"), Ok(value));
    assert_eq!(parse_id("A1A2A3A4-B1B2-C1C2-D1D2-D3D4D5D6D7D8"), Ok(value));
    assert_eq!(parse_id("urn:uuid:a1a2a3a4-b1b2-c1c2-d1d2-d3d4d5d6d7d8"), Ok(value));
    assert_eq!(parse_id("{a1a2a3a4-b1b2-c1c2-d1d2-d3d4d5d6d7d8}"), Ok(value));
}

#[test]
fn malformed_identifier_has_a_reason() {
    for text in [
        "",
        "not-a-uuid",
        "550e8400-e29b-41d4-a716-44665544000",
        "550e8400-e29b-41d4-a716-44665544000g",
    ] {
        let parsed = parse_id(text);
        assert!(parsed.is_err());
        assert_eq!(parsed.unwrap_err(), uuid::Uuid::parse_str(text).unwrap_err().to_string());
    }
}

#[test]
fn identifier_text_is_hyphenated_lower_case() {
    assert_eq!(
        written(0xa1a2a3a4_b1b2_c1c2_d1d2_d3d4d5d6d7d8u128),
        "a1a2a3a4-b1b2-c1c2-d1d2-d3d4d5d6d7d8"
    );
    assert_eq!(written(0), "00000000-0000-0000-0000-000000000000");
}

#[test]
fn identifier_text_reads_back() {
    for id in [0u128, 1, u128::MAX, 0x550e8400_e29b_41d4_a716_446655440000u128] {
        assert_eq!(parse_id(&written(id)), Ok(id));
    }
}

#[test]
fn drawn_identifiers_are_random_version() {
    let private_key = "dwdtCnMYpX08FsFyUbJmRd9ML4frwJkqsXf7pR25LCo=";
    let first = KeyPair::new(private_key.to_string(), None).unwrap().id;
    let second = KeyPair::new(private_key.to_string(), None).unwrap().id;
    assert_ne!(first, second);
    for id in [first, second] {
        assert_eq!((id >> 76) & 0xf, 4);
        assert_eq!((id >> 62) & 0x3, 2);
    }
}
